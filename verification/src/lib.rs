//! The command-execution core of a build tool: it says how the shell is
//! started for a command line, settles a process that has ended against the
//! command that started it, and turns what went wrong into errors.
//!
//! Nothing here starts a process, waits, reads or prints. Those are for the
//! program around the library; the library takes what they gave as plain
//! values and decides what follows.

pub mod config;
pub mod error;
pub mod job;
pub mod laws;
pub mod prepend;
pub mod process;
pub mod runner;
pub mod text;

pub use config::{
    filename_for_dir_name, get_assumed_filename, get_assumed_filename_for_dir, parse_toml_file,
};
pub use error::{IoError, YabsError};
pub use job::{FailureReport, Job, JobState, Yield};
pub use prepend::PrependEach;
pub use process::{ExitStatus, Output};
pub use runner::{run_cmd, spawn_cmd, Invocation, RunReport};
