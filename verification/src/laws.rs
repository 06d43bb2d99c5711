//! What holds of every run and every job, proved from the definitions.

use crate::error::{IoErrorView, YabsErrorView};
use crate::job::{JobState, JobView, YieldView};
use crate::process::{ExitStatus, OutputView};
use crate::runner::{run_printed, run_result};
use crate::text::lemma_text_keeps_bytes;
use vstd::prelude::*;
use vstd::utf8::{decode_utf8, encode_utf8, valid_utf8};

verus! {

/// A process that exits with status zero is a success on both paths: a run
/// whose output stream is text succeeds, and a running job that is waited
/// for finishes with success, asking for nothing more.
pub proof fn lemma_zero_exit_succeeds<P>(cmd: Seq<char>, output: OutputView, job: JobView<P>)
    requires
        output.status.code == Some(0i32),
        valid_utf8(output.stdout),
        job.state == JobState::Running,
    ensures
        run_result(cmd, Ok(output)) == Ok::<(), YabsErrorView>(()),
        job.yields(Ok(output.status)) == YieldView::Done(Ok(())),
        job.waited(Ok(output.status)).state == JobState::Finished,
{
}

/// A process that exits with status zero is never reported as a failed
/// command, whatever it wrote.
pub proof fn lemma_zero_exit_never_command_failed<P>(
    cmd: Seq<char>,
    output: OutputView,
    job: JobView<P>,
)
    requires
        output.status.code == Some(0i32),
    ensures
        !(run_result(cmd, Ok(output)) matches Err(YabsErrorView::Command(_, _))),
        job.yields(Ok(output.status)) == YieldView::Done(Ok(())),
{
}

/// A process that exits with a status `n` other than zero is reported on
/// both paths as a failed command with exactly `n`: by a run whose error
/// stream is text, and by a job whose error stream is absent or was read and
/// is text.
pub proof fn lemma_nonzero_exit_reported<P>(
    n: i32,
    output: OutputView,
    job: JobView<P>,
    drained: Option<Result<Seq<u8>, IoErrorView>>,
)
    requires
        n != 0,
        output.status.code == Some(n),
        valid_utf8(output.stderr),
        job.state == JobState::Running,
        drained matches Some(read) ==> read matches Ok(bytes) && valid_utf8(bytes),
    ensures
        run_result(job.command, Ok(output)) == Err::<(), YabsErrorView>(
            YabsErrorView::Command(job.command, n as int),
        ),
        job.yields(Ok(output.status)) == YieldView::Drain,
        job.waited(Ok(output.status)).state == JobState::Failed(n),
        job.waited(Ok(output.status)).failure_report(drained).error == YabsErrorView::Command(
            job.command,
            n as int,
        ),
{
}

/// A process for which the system reports no exit code, as one that a
/// signal terminated, is reported on both paths as a failed command with
/// code 1.
pub proof fn lemma_missing_code_reported_as_one<P>(
    output: OutputView,
    job: JobView<P>,
    drained: Option<Result<Seq<u8>, IoErrorView>>,
)
    requires
        output.status.code is None,
        valid_utf8(output.stderr),
        job.state == JobState::Running,
        drained matches Some(read) ==> read matches Ok(bytes) && valid_utf8(bytes),
    ensures
        run_result(job.command, Ok(output)) == Err::<(), YabsErrorView>(
            YabsErrorView::Command(job.command, 1),
        ),
        job.yields(Ok(output.status)) == YieldView::Drain,
        job.waited(Ok(output.status)).state == JobState::Failed(1),
        job.waited(Ok(output.status)).failure_report(drained).error == YabsErrorView::Command(
            job.command,
            1,
        ),
{
}

/// No failed command is ever reported with code zero: neither by a run, nor
/// by a job that was waited for.
pub proof fn lemma_failed_code_is_not_zero<P>(
    cmd: Seq<char>,
    outcome: Result<OutputView, IoErrorView>,
    job: JobView<P>,
    waited: Result<ExitStatus, IoErrorView>,
    drained: Option<Result<Seq<u8>, IoErrorView>>,
)
    ensures
        run_result(cmd, outcome) matches Err(YabsErrorView::Command(_, code)) ==> code != 0,
        job.waited(waited).wf(),
        job.waited(waited).state is Failed ==> (job.waited(waited).failure_report(
            drained,
        ).error matches YabsErrorView::Command(_, code) ==> code != 0),
{
}

/// The command line of a job is the text it was made with, whatever its
/// process comes to: neither waiting nor the report of a failure changes
/// it or the process, and a failed command is reported under it.
pub proof fn lemma_command_is_kept<P>(
    command: Seq<char>,
    process: P,
    waited: Result<ExitStatus, IoErrorView>,
    drained: Option<Result<Seq<u8>, IoErrorView>>,
)
    ensures
        JobView::spawned(command, process).command == command,
        JobView::spawned(command, process).waited(waited).command == command,
        JobView::spawned(command, process).waited(waited).process == process,
        JobView::spawned(command, process).waited(waited).reported().command == command,
        JobView::spawned(command, process).waited(waited).reported().process == process,
        JobView::spawned(command, process).waited(waited).failure_report(
            drained,
        ).error matches YabsErrorView::Command(text, _) ==> text == command,
{
}

/// What a failed job hands to the log is the error stream, whole and
/// unchanged: the text encodes to exactly the bytes that were read. Where
/// nothing is logged although a stream was read, the stream was not text.
pub proof fn lemma_log_is_the_error_stream<P>(job: JobView<P>, bytes: Seq<u8>)
    ensures
        job.failure_report(Some(Ok(bytes))).log is Some <==> valid_utf8(bytes),
        job.failure_report(Some(Ok(bytes))).log matches Some(text) ==> encode_utf8(text) == bytes,
{
    if valid_utf8(bytes) {
        lemma_text_keeps_bytes(bytes);
    }
}

/// What a run shows of a failed process is the command line, a line break
/// and the error stream, whole and unchanged: the text after the line break
/// encodes to exactly the bytes that the process wrote.
pub proof fn lemma_run_shows_the_error_stream(cmd: Seq<char>, output: OutputView)
    requires
        !output.status.spec_success(),
        valid_utf8(output.stderr),
    ensures
        run_printed(cmd, Ok(output)) == cmd + "\n"@ + decode_utf8(output.stderr),
        encode_utf8(decode_utf8(output.stderr)) == output.stderr,
{
    lemma_text_keeps_bytes(output.stderr);
}

} // verus!
