//! Run an external program as a stream transformer.
//!
//! A converter strategy names an executable and builds its command line; the
//! process pipe runner feeds an upstream byte source into the child and hands
//! the child's output back as a lazy stream whose final read reports the exit
//! status. This crate holds the verified core of that mechanism: the command
//! and file-unit data model, the error translation, and the state machines
//! that drive the child's input and output pipes. The unverified shell that
//! performs the actual process and pipe system calls lives outside and feeds
//! plain values (spawn outcomes, output chunks, exit statuses) into the
//! functions here.

pub mod adapter;
pub mod error;
pub mod process;

pub use adapter::configure_command;
pub use adapter::repackage;
pub use adapter::AdaptInfo;
pub use adapter::AdaptPlan;
pub use adapter::Command;
pub use adapter::SpawningFileAdapter;
pub use adapter::SpawningFileAdapterTrait;

pub use error::map_exe_error;
pub use error::AdaptError;
pub use error::SpawnError;
pub use process::pipe_output;
pub use process::CompositeOutput;
pub use process::ExitStatus;
pub use process::FeedAction;
pub use process::InputFeeder;
pub use process::ProcWaitReader;
