//! Running one command line: how its process is started, what is shown of
//! the run, and how the run is judged.

use crate::error::{result_view, IoError, IoErrorView, YabsError, YabsErrorView};
use crate::process::{Output, OutputView};
use crate::text::{decode_text, text_of};
use vstd::prelude::*;
use vstd::string::StringExecFns;

verus! {

/// A program and the arguments to start it with.
#[derive(Debug, PartialEq, Eq)]
pub struct Invocation {
    pub program: String,
    pub args: Vec<String>,
}

/// How `cmd` is to be spawned: as `sh -c <cmd>`.
///
/// The text is handed to the shell whole, as a single argument, so pipes,
/// redirections and globs in it keep their meaning. Nothing is started
/// here: the invocation is for whoever starts the process.
pub fn spawn_cmd(cmd: &str) -> (invocation: Invocation)
    ensures
        invocation.program@ == "sh"@,
        invocation.args@.len() == 2,
        invocation.args@[0]@ == "-c"@,
        invocation.args@[1]@ == cmd@,
{
    let mut args: Vec<String> = Vec::new();
    args.push("-c".to_owned());
    args.push(cmd.to_owned());
    Invocation { program: "sh".to_owned(), args }
}

/// What a run of a command comes to: the text to write to standard output,
/// and the verdict.
#[derive(Debug, PartialEq, Eq)]
pub struct RunReport {
    pub printed: String,
    pub result: Result<(), YabsError>,
}

/// The captured stream that a run shows: the output stream of a process that
/// succeeded, the error stream of one that did not.
pub open spec fn shown_stream(output: OutputView) -> Seq<u8> {
    if output.status.spec_success() {
        output.stdout
    } else {
        output.stderr
    }
}

/// The text that a run writes to standard output.
///
/// Nothing, where the process could not be started or waited for. Otherwise
/// the command line and a line break, followed by the stream that the run
/// shows, unless that stream is not text.
pub open spec fn run_printed(cmd: Seq<char>, outcome: Result<OutputView, IoErrorView>) -> Seq<
    char,
> {
    match outcome {
        Err(_) => Seq::empty(),
        Ok(output) => match text_of(shown_stream(output)) {
            Ok(text) => cmd + "\n"@ + text,
            Err(_) => cmd + "\n"@,
        },
    }
}

/// The verdict on a run.
///
/// A failure to start or to wait is handed on. A shown stream that is not
/// text is an error of its own, whatever the status. Otherwise the run
/// succeeds exactly when the process did, and a failed process gives the
/// command line with its exit code.
pub open spec fn run_result(cmd: Seq<char>, outcome: Result<OutputView, IoErrorView>) -> Result<
    (),
    YabsErrorView,
> {
    match outcome {
        Err(failure) => Err(YabsErrorView::Io(failure)),
        Ok(output) => match text_of(shown_stream(output)) {
            Err(error) => Err(error),
            Ok(_) => if output.status.spec_success() {
                Ok(())
            } else {
                Err(YabsErrorView::Command(cmd, output.status.spec_exit_code() as int))
            },
        },
    }
}

/// Judges a run of `cmd` from what starting the shell and waiting for it
/// gave, and says what the run writes to standard output.
///
/// The command line is echoed first. A process that failed then has its
/// error stream shown and the run ends in [`YabsError::Command`]; one that
/// succeeded has its output stream shown.
pub fn run_cmd(cmd: &str, outcome: Result<Output, IoError>) -> (report: RunReport)
    ensures
        report.printed@ == run_printed(cmd@, result_view(outcome)),
        result_view(report.result) == run_result(cmd@, result_view(outcome)),
{
    match outcome {
        Err(failure) => RunReport { printed: String::new(), result: Err(YabsError::Io(failure)) },
        Ok(output) => {
            let Output { status, stdout, stderr } = output;
            let mut printed = cmd.to_owned();
            printed.append("\n");
            if !status.success() {
                match decode_text(stderr) {
                    Ok(text) => {
                        printed.append(text.as_str());
                        let failed = YabsError::Command(cmd.to_owned(), status.exit_code());
                        RunReport { printed, result: Err(failed) }
                    },
                    Err(error) => RunReport { printed, result: Err(error) },
                }
            } else {
                match decode_text(stdout) {
                    Ok(text) => {
                        printed.append(text.as_str());
                        RunReport { printed, result: Ok(()) }
                    },
                    Err(error) => RunReport { printed, result: Err(error) },
                }
            }
        },
    }
}

} // verus!
