//! The generic spawning adapter and its data model.
//!
//! A converter strategy names an executable and configures its arguments for
//! one file; the adapter turns an incoming file unit into the command to
//! spawn and the descriptor of the single outgoing file unit. The outgoing
//! unit's byte stream is the pipe runner's downstream output and is attached
//! by the unverified shell that performs the spawn; everything else about the
//! outgoing unit is decided, and proved, here.

use crate::error::AdaptError;
use vstd::prelude::*;
use vstd::string::StringExecFns;

verus! {

/// A description of an external command to run: the program's name and its
/// arguments, in order. A value of this type is a plain description; nothing
/// is spawned until the shell hands it to the operating system.
pub struct Command {
    pub program: String,
    pub args: Vec<String>,
}

impl Command {
    /// The arguments as character sequences, in order.
    pub open spec fn args_view(self) -> Seq<Seq<char>> {
        self.args@.map_values(|s: String| s@)
    }

    /// A command for the given program, with no arguments yet.
    pub fn new(program: &str) -> (r: Command)
        ensures
            r.program@ == program@,
            r.args_view() == Seq::<Seq<char>>::empty(),
    {
        let r = Command { program: String::from_str(program), args: Vec::new() };
        proof {
            assert(r.args_view() =~= Seq::<Seq<char>>::empty());
        }
        r
    }

    /// Appends one argument, leaving the program and the earlier arguments
    /// unchanged.
    pub fn arg(&mut self, a: &str)
        ensures
            final(self).program@ == old(self).program@,
            final(self).args_view() == old(self).args_view().push(a@),
    {
        self.args.push(String::from_str(a));
        proof {
            assert(final(self).args_view() =~= old(self).args_view().push(a@));
        }
    }
}

/// The pipeline's unit of work, as this adapter reads and rebuilds it: the
/// hint path (used for naming decisions, not necessarily a real filesystem
/// path), the line prefix for downstream display, the nesting depth for
/// archive handling, the postprocessing configuration, and whether the unit
/// is an on-disk file rather than a synthetic in-memory stream. The unit's
/// byte stream is owned by the shell alongside this descriptor and moves
/// wholesale when the unit is repackaged.
pub struct AdaptInfo {
    pub filepath_hint: String,
    pub line_prefix: String,
    pub archive_recursion_depth: u32,
    pub postprocess: bool,
    pub is_real_file: bool,
}

/// One external tool integration: its executable's name, and the pure
/// construction of the full command for a given file. Implemented once per
/// supported tool, constructed at configuration time and reused across
/// invocations; it must not itself spawn anything.
pub trait SpawningFileAdapterTrait {
    /// The program to invoke; used both for spawning and for error messages.
    fn get_exe(&self) -> (r: &str);

    /// Builds the full command for the given hint path, starting from the
    /// base command (the executable with no arguments yet). Returns the
    /// configured command, or the cause of a configuration failure —
    /// distinguishable from any spawn or runtime failure.
    fn command(&self, filepath_hint: &str, command: Command) -> (r: Result<Command, String>);
}

/// What adapting one file unit decides: the fully configured command to
/// spawn, and the outgoing unit's descriptor, whose stream will be the pipe
/// runner's downstream output. One plan stands for exactly one child process.
pub struct AdaptPlan {
    pub command: Command,
    pub output: AdaptInfo,
}

/// Attaches the executable's name to the strategy's answer: a configured
/// command passes through unchanged, and a configuration failure becomes the
/// configuration error naming the executable and the underlying cause.
pub fn configure_command(exe_name: &str, built: Result<Command, String>) -> (r: Result<
    Command,
    AdaptError,
>)
    ensures
        built matches Ok(c) ==> r == Ok::<Command, AdaptError>(c),
        built matches Err(cause) ==> (r matches Err(AdaptError::Config { exe_name: e, cause: c })
            && e@ == exe_name@ && c@ == cause@),
{
    match built {
        Ok(c) => Ok(c),
        Err(cause) => Err(AdaptError::Config { exe_name: String::from_str(exe_name), cause }),
    }
}

/// Builds the outgoing file unit's descriptor from the incoming one: the
/// hint path is the incoming hint path with the derived suffix appended, the
/// unit is marked synthetic (never a real file), and the line prefix, the
/// recursion depth and the postprocess configuration carry over unchanged.
pub fn repackage(ai: AdaptInfo, suffix: &str) -> (r: AdaptInfo)
    ensures
        r.filepath_hint@ == ai.filepath_hint@ + suffix@,
        r.is_real_file == false,
        r.line_prefix@ == ai.line_prefix@,
        r.archive_recursion_depth == ai.archive_recursion_depth,
        r.postprocess == ai.postprocess,
{
    AdaptInfo {
        filepath_hint: ai.filepath_hint.concat(suffix),
        line_prefix: ai.line_prefix,
        archive_recursion_depth: ai.archive_recursion_depth,
        postprocess: ai.postprocess,
        is_real_file: false,
    }
}

/// Adapts the pipeline's file units to the process pipe runner through one
/// converter strategy. The derived suffix appended to the outgoing hint path
/// is configurable; by default it marks converted text.
pub struct SpawningFileAdapter<T: SpawningFileAdapterTrait> {
    inner: T,
    suffix: String,
}

impl<T: SpawningFileAdapterTrait> SpawningFileAdapter<T> {
    /// The derived suffix appended to every outgoing hint path.
    pub closed spec fn suffix_view(self) -> Seq<char> {
        self.suffix@
    }

    /// Wraps a converter strategy, with the default derived suffix for
    /// converted text.
    pub fn new(inner: T) -> (r: SpawningFileAdapter<T>)
        ensures
            r.suffix_view() == ".txt"@,
    {
        SpawningFileAdapter { inner, suffix: String::from_str(".txt") }
    }

    /// Wraps a converter strategy with a chosen derived suffix.
    pub fn with_suffix(inner: T, suffix: String) -> (r: SpawningFileAdapter<T>)
        ensures
            r.suffix_view() == suffix@,
    {
        SpawningFileAdapter { inner, suffix }
    }

    /// Adapts one incoming file unit: builds the base command for the
    /// strategy's executable, asks the strategy to configure its arguments
    /// for the unit's hint path — a configuration failure is surfaced with
    /// the executable's name attached — and returns the command to spawn
    /// together with the outgoing unit's descriptor: the hint path with the
    /// derived suffix appended, marked synthetic, the remaining attributes
    /// carried over unchanged. Exactly one child process is to be spawned
    /// per returned plan; nothing is retried here.
    pub fn adapt(&self, ai: AdaptInfo) -> (r: Result<AdaptPlan, AdaptError>)
        ensures
            r matches Ok(plan) ==> ({
                &&& plan.output.filepath_hint@ == ai.filepath_hint@ + self.suffix_view()
                &&& plan.output.is_real_file == false
                &&& plan.output.line_prefix@ == ai.line_prefix@
                &&& plan.output.archive_recursion_depth == ai.archive_recursion_depth
                &&& plan.output.postprocess == ai.postprocess
            }),
            r matches Err(e) ==> e is Config,
    {
        let base = Command::new(self.inner.get_exe());
        let built = self.inner.command(ai.filepath_hint.as_str(), base);
        let command = match configure_command(self.inner.get_exe(), built) {
            Ok(c) => c,
            Err(e) => {
                return Err(e);
            },
        };
        let output = repackage(ai, self.suffix.as_str());
        Ok(AdaptPlan { command, output })
    }
}

} // verus!
