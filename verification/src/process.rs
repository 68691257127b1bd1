//! The process pipe runner's verified core.
//!
//! The runner spawns an external command with both standard pipes attached,
//! feeds an upstream byte source into the child's input, and presents the
//! child's output followed by an exit-status check as one composite stream.
//! The system calls themselves (spawn, pipe reads and writes, wait) happen in
//! an unverified shell; that shell reports each observation here as a plain
//! value, and the state machines in this module decide what the stream's
//! caller sees. [`CompositeOutput`] drives the output side, [`ProcWaitReader`]
//! is its exit-status tail, and [`InputFeeder`] drives the input side, which
//! must run as its own schedulable unit (a separate thread or poll loop) so
//! that a full input pipe can never block the output read, and the other way
//! round.

use crate::error::map_exe_error;
use crate::error::AdaptError;
use crate::error::SpawnError;
use vstd::prelude::*;

verus! {

/// The observed termination status of a child process: its exit code, or
/// `None` when the process was terminated by a signal instead of exiting.
#[derive(Clone, Copy, PartialEq, Eq, Debug)]
pub struct ExitStatus {
    pub code: Option<i32>,
}

impl ExitStatus {
    /// Success means a regular exit with code zero.
    pub open spec fn is_success(self) -> bool {
        self.code == Some(0i32)
    }

    pub fn success(&self) -> (r: bool)
        ensures
            r == self.is_success(),
    {
        match self.code {
            Some(c) => c == 0,
            None => false,
        }
    }
}

/// What one read of the exit-status tail yields: end-of-stream (zero bytes)
/// when the reader has already signaled once or the child succeeded, and the
/// process-failure error carrying the status otherwise.
pub open spec fn tail_read_result(already_waited: bool, status: ExitStatus) -> Result<
    usize,
    AdaptError,
> {
    if already_waited {
        Ok(0usize)
    } else if status.is_success() {
        Ok(0usize)
    } else {
        Err(AdaptError::ProcessFailed { status })
    }
}

/// The exit-status tail of the composite stream: a stage that produces no
/// bytes and, on its first read, waits for the child to terminate, yielding
/// end-of-stream on success and an error on non-zero exit. Any later read is
/// a no-op returning end-of-stream; the child is never waited on twice.
pub struct ProcWaitReader {
    waited: bool,
}

impl ProcWaitReader {
    /// True once the reader has observed the child's termination status.
    pub closed spec fn has_waited(self) -> bool {
        self.waited
    }

    pub fn new() -> (r: ProcWaitReader)
        ensures
            !r.has_waited(),
    {
        ProcWaitReader { waited: false }
    }

    /// True while a read must still wait on the child; the shell performs the
    /// wait exactly when this says so.
    pub fn needs_wait(&self) -> (r: bool)
        ensures
            r == !self.has_waited(),
    {
        !self.waited
    }

    /// One read of the tail. On the first read the shell supplies the status
    /// it observed by waiting on the child; on any later read no wait is
    /// performed, no status is needed, and the result is end-of-stream
    /// whatever may be passed in.
    pub fn read(&mut self, wait_result: Option<ExitStatus>) -> (r: Result<usize, AdaptError>)
        requires
            !old(self).has_waited() ==> wait_result is Some,
        ensures
            final(self).has_waited(),
            old(self).has_waited() ==> r == Ok::<usize, AdaptError>(0usize),
            !old(self).has_waited() ==> (wait_result matches Some(status) && r
                == tail_read_result(false, status)),
    {
        if self.waited {
            Ok(0)
        } else {
            self.waited = true;
            match wait_result {
                Some(status) => {
                    if status.success() {
                        Ok(0)
                    } else {
                        Err(AdaptError::ProcessFailed { status })
                    }
                },
                None => vstd::pervasive::unreached(),
            }
        }
    }
}

/// The composite output stream: the child's standard output, followed by the
/// exit-status tail. While the body stage is active, each chunk read off the
/// child's output is handed to the caller unchanged; an empty read moves the
/// stream to the tail stage, whose one real read reports the exit status.
pub struct CompositeOutput {
    body_done: bool,
    tail: ProcWaitReader,
    delivered: Ghost<Seq<u8>>,
}

impl CompositeOutput {
    /// True while the stream still forwards the child's output.
    pub closed spec fn in_body(self) -> bool {
        !self.body_done
    }

    /// True once the exit-status tail has observed the child's termination.
    pub closed spec fn has_waited(self) -> bool {
        self.tail.has_waited()
    }

    /// Every byte handed to the caller so far, in order.
    pub closed spec fn delivered(self) -> Seq<u8> {
        self.delivered@
    }

    pub fn new() -> (r: CompositeOutput)
        ensures
            r.in_body(),
            !r.has_waited(),
            r.delivered() == Seq::<u8>::empty(),
    {
        CompositeOutput { body_done: false, tail: ProcWaitReader::new(), delivered: Ghost(Seq::empty()) }
    }

    /// True while the shell should read the child's standard output next.
    pub fn wants_output(&self) -> (r: bool)
        ensures
            r == self.in_body(),
    {
        !self.body_done
    }

    /// True when the shell should wait on the child next: the output is
    /// exhausted and the exit status has not been observed yet.
    pub fn needs_wait(&self) -> (r: bool)
        ensures
            r == (!self.in_body() && !self.has_waited()),
    {
        self.body_done && self.tail.needs_wait()
    }

    /// One read of the child's standard output. `chunk` holds the bytes that
    /// came back; an empty chunk means the child closed its output, which
    /// ends the body stage. The returned bytes are the chunk itself,
    /// unchanged: the stream never alters, drops or reorders output.
    pub fn on_output(&mut self, chunk: Vec<u8>) -> (out: Vec<u8>)
        requires
            old(self).in_body(),
        ensures
            out@ == chunk@,
            chunk@.len() > 0 ==> final(self).in_body() && final(self).delivered() == old(self).delivered() + chunk@,
            chunk@.len() == 0 ==> !final(self).in_body() && final(self).delivered() == old(self).delivered(),
            final(self).has_waited() == old(self).has_waited(),
    {
        if chunk.len() == 0 {
            self.body_done = true;
        } else {
            self.delivered = Ghost(self.delivered@ + chunk@);
        }
        chunk
    }

    /// One read of the exit-status tail, after the body stage has ended. The
    /// shell supplies the status it observed by waiting on the child on the
    /// first such read, and nothing afterwards.
    pub fn on_exit(&mut self, wait_result: Option<ExitStatus>) -> (r: Result<usize, AdaptError>)
        requires
            !old(self).in_body(),
            !old(self).has_waited() ==> wait_result is Some,
        ensures
            !final(self).in_body(),
            final(self).has_waited(),
            final(self).delivered() == old(self).delivered(),
            old(self).has_waited() ==> r == Ok::<usize, AdaptError>(0usize),
            !old(self).has_waited() ==> (wait_result matches Some(status) && r
                == tail_read_result(false, status)),
    {
        self.tail.read(wait_result)
    }
}

/// What the input-feeding side should do with one upstream read.
#[derive(Clone, Copy, PartialEq, Eq, Debug)]
pub enum FeedAction {
    /// Write the chunk to the child's standard input.
    WriteChunk,
    /// Upstream is exhausted: close the child's standard input, signaling
    /// end-of-input to the child.
    CloseInput,
}

/// The input side of the runner: copies the upstream byte source into the
/// child's standard input, then closes that input. It runs as its own
/// schedulable unit, concurrently with the output side, so that neither pipe
/// can block the other. The `fed` bytes record that the upstream source is
/// handed to the child unchanged and in order.
pub struct InputFeeder {
    input_open: bool,
    fed: Ghost<Seq<u8>>,
}

impl InputFeeder {
    /// True while the child's standard input is still open.
    pub closed spec fn is_open(self) -> bool {
        self.input_open
    }

    /// Every byte handed to the child so far, in order.
    pub closed spec fn fed(self) -> Seq<u8> {
        self.fed@
    }

    pub fn new() -> (r: InputFeeder)
        ensures
            r.is_open(),
            r.fed() == Seq::<u8>::empty(),
    {
        InputFeeder { input_open: true, fed: Ghost(Seq::empty()) }
    }

    /// One read of the upstream source: an empty chunk means upstream
    /// end-of-input, on which the child's input is to be closed; otherwise
    /// the chunk goes to the child unchanged.
    pub fn on_input(&mut self, chunk: &Vec<u8>) -> (action: FeedAction)
        requires
            old(self).is_open(),
        ensures
            chunk@.len() > 0 ==> action == FeedAction::WriteChunk && final(self).is_open() && final(self).fed() == old(self).fed() + chunk@,
            chunk@.len() == 0 ==> action == FeedAction::CloseInput && !final(self).is_open()
                && final(self).fed() == old(self).fed(),
    {
        if chunk.len() == 0 {
            self.input_open = false;
            FeedAction::CloseInput
        } else {
            self.fed = Ghost(self.fed@ + chunk@);
            FeedAction::WriteChunk
        }
    }
}

/// Builds the downstream side of the pipe runner from the outcome of the
/// spawn attempt. A successful spawn yields the composite output stream in
/// its initial state; a spawn failure is translated by
/// [`map_exe_error`]: a missing executable becomes a readable
/// message naming it, any other launch error passes through unchanged.
pub fn pipe_output(spawn_result: Result<(), SpawnError>, exe_name: &str, help: &str) -> (r: Result<
    CompositeOutput,
    AdaptError,
>)
    ensures
        spawn_result is Ok ==> (r matches Ok(out) && out.in_body() && !out.has_waited()
            && out.delivered() == Seq::<u8>::empty()),
        spawn_result matches Err(e) ==> ({
            &&& e.not_found ==> (r matches Err(AdaptError::MissingExecutable { message })
                && message@ == "Could not find executable \""@ + exe_name@ + "\". "@ + help@)
            &&& !e.not_found ==> (r matches Err(AdaptError::Launch { message }) && message@
                == e.message@)
        }),
{
    match spawn_result {
        Ok(_) => Ok(CompositeOutput::new()),
        Err(e) => Err(map_exe_error(e, exe_name, help)),
    }
}

/// The bytes delivered by the body stage after it starts with `delivered`
/// already handed out and then forwards each chunk of `chunks`, in order.
pub open spec fn delivered_after_chunks(delivered: Seq<u8>, chunks: Seq<Seq<u8>>) -> Seq<u8>
    decreases chunks.len(),
{
    if chunks.len() == 0 {
        delivered
    } else {
        delivered_after_chunks(delivered + chunks.first(), chunks.drop_first())
    }
}

proof fn lemma_delivered_after_chunks_adds(delivered: Seq<u8>, chunks: Seq<Seq<u8>>)
    ensures
        delivered_after_chunks(delivered, chunks) == delivered + chunks.flatten(),
    decreases chunks.len(),
{
    if chunks.len() == 0 {
        assert(delivered + chunks.flatten() =~= delivered);
    } else {
        lemma_delivered_after_chunks_adds(delivered + chunks.first(), chunks.drop_first());
        assert((delivered + chunks.first()) + chunks.drop_first().flatten() =~= delivered
            + chunks.flatten());
    }
}

/// Law: the composite stream is a pass-through. Whatever chunks the child
/// writes, the bytes delivered to the caller are exactly their concatenation:
/// nothing is altered, dropped or reordered on the way.
pub proof fn lemma_output_passed_through(chunks: Seq<Seq<u8>>)
    ensures
        delivered_after_chunks(Seq::<u8>::empty(), chunks) == chunks.flatten(),
{
    lemma_delivered_after_chunks_adds(Seq::empty(), chunks);
    assert(Seq::<u8>::empty() + chunks.flatten() =~= chunks.flatten());
}

/// Law: a child that fails after partial output never loses that output.
/// Every chunk read before end-of-output is delivered in full, and the exit
/// check that follows yields the process-failure error carrying the non-zero
/// status: output is never silently truncated.
pub proof fn lemma_partial_output_then_failure(chunks: Seq<Seq<u8>>, status: ExitStatus)
    requires
        !status.is_success(),
    ensures
        delivered_after_chunks(Seq::<u8>::empty(), chunks) == chunks.flatten(),
        tail_read_result(false, status) == Err::<usize, AdaptError>(
            AdaptError::ProcessFailed { status },
        ),
{
    lemma_output_passed_through(chunks);
}

/// Law: end-of-stream is a success guarantee. The exit-status check's first
/// read yields end-of-stream exactly when the child exited successfully;
/// any other termination surfaces as the process-failure error.
pub proof fn lemma_eof_implies_success(status: ExitStatus)
    ensures
        (tail_read_result(false, status) == Ok::<usize, AdaptError>(0usize))
            <==> status.is_success(),
{
}

/// Law: once the exit-status tail has signaled success or failure, every
/// later read yields plain end-of-stream, whatever status may be offered:
/// the child is never waited on again, and no read after the first can hang
/// or fail.
pub proof fn lemma_tail_read_after_signal(status: ExitStatus)
    ensures
        tail_read_result(true, status) == Ok::<usize, AdaptError>(0usize),
{
}

} // verus!
