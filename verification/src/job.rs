//! A spawned process bound to the command line that started it.
//!
//! The library never touches a process itself. Whoever owns the job waits
//! for the process and reads its error stream; the job decides what each of
//! those steps comes to.

use crate::error::{result_view, IoError, IoErrorView, YabsError, YabsErrorView};
use crate::process::ExitStatus;
use crate::text::{decode_text, text_of};
use vstd::prelude::*;

verus! {

/// Where a job stands between the start of its process and its result.
#[derive(Debug, Clone, Copy, PartialEq, Eq)]
pub enum JobState {
    /// The process was started and has not been waited for.
    Running,
    /// The process ended unsuccessfully, with this code to report; what it
    /// wrote to its error stream is still to be collected.
    Failed(i32),
    /// The job has given its result.
    Finished,
}

/// What [`Job::yield_self`] comes to.
#[derive(Debug, PartialEq, Eq)]
pub enum Yield {
    /// The job is finished, with this result.
    Done(Result<(), YabsError>),
    /// The process failed. Its error stream is to be read to the end, where
    /// one is attached, and handed to [`Job::report_failure`].
    Drain,
}

/// The mathematical value of a [`Yield`].
pub enum YieldView {
    Done(Result<(), YabsErrorView>),
    Drain,
}

impl View for Yield {
    type V = YieldView;

    open spec fn view(&self) -> YieldView {
        match *self {
            Yield::Done(result) => YieldView::Done(result_view(result)),
            Yield::Drain => YieldView::Drain,
        }
    }
}

/// How a failed job ends: the text for the diagnostic log, if there is any,
/// and the error to return.
#[derive(Debug, PartialEq, Eq)]
pub struct FailureReport {
    pub log: Option<String>,
    pub error: YabsError,
}

/// The mathematical value of a [`FailureReport`].
pub struct FailureReportView {
    pub log: Option<Seq<char>>,
    pub error: YabsErrorView,
}

impl View for FailureReport {
    type V = FailureReportView;

    open spec fn view(&self) -> FailureReportView {
        FailureReportView { log: self.log.deep_view(), error: self.error@ }
    }
}

/// The mathematical value of what reading an error stream gave: `None`
/// where no stream is attached, else the bytes that were read or the failure
/// to read them.
pub open spec fn drained_view(drained: Option<Result<Vec<u8>, IoError>>) -> Option<
    Result<Seq<u8>, IoErrorView>,
> {
    match drained {
        Some(read) => Some(result_view(read)),
        None => None,
    }
}

/// A running or ended process of type `P`, together with the command line
/// that started it.
pub struct Job<P> {
    process: P,
    command: String,
    state: JobState,
}

/// The mathematical value of a [`Job`].
pub struct JobView<P> {
    pub command: Seq<char>,
    pub process: P,
    pub state: JobState,
}

impl<P> JobView<P> {
    /// A job as it is made: running.
    pub open spec fn spawned(command: Seq<char>, process: P) -> JobView<P> {
        JobView { command, process, state: JobState::Running }
    }

    /// A failed job has a code other than zero to report.
    pub open spec fn wf(self) -> bool {
        self.state matches JobState::Failed(code) ==> code != 0
    }

    /// The job once its process has been waited for: finished, unless the
    /// process ended unsuccessfully and its error stream is still owed.
    pub open spec fn waited(self, waited: Result<ExitStatus, IoErrorView>) -> JobView<P> {
        JobView {
            state: match waited {
                Ok(status) if !status.spec_success() => JobState::Failed(status.spec_exit_code()),
                _ => JobState::Finished,
            },
            ..self
        }
    }

    /// What waiting for the process comes to: a failure to wait is handed
    /// on, a process that succeeded finishes the job with success, and one
    /// that did not asks for its error stream.
    pub open spec fn yields(self, waited: Result<ExitStatus, IoErrorView>) -> YieldView {
        match waited {
            Err(failure) => YieldView::Done(Err(YabsErrorView::Io(failure))),
            Ok(status) => if status.spec_success() {
                YieldView::Done(Ok(()))
            } else {
                YieldView::Drain
            },
        }
    }

    /// The error that a failed process is reported with: the command line
    /// and the code that the job holds.
    pub open spec fn command_failed(self) -> YabsErrorView
        recommends
            self.state is Failed,
    {
        YabsErrorView::Command(self.command, self.state->Failed_0 as int)
    }

    /// How a failed job ends, given what reading its error stream gave.
    ///
    /// A stream that was read and is text goes to the log, whole, and the
    /// command is reported as failed; so it is, with nothing logged, where
    /// no stream is attached. A stream that could not be read, or is not
    /// text, is the error in place of that, and nothing is logged.
    pub open spec fn failure_report(
        self,
        drained: Option<Result<Seq<u8>, IoErrorView>>,
    ) -> FailureReportView
        recommends
            self.state is Failed,
    {
        match drained {
            None => FailureReportView { log: None, error: self.command_failed() },
            Some(Err(failure)) => FailureReportView {
                log: None,
                error: YabsErrorView::Io(failure),
            },
            Some(Ok(bytes)) => match text_of(bytes) {
                Ok(text) => FailureReportView { log: Some(text), error: self.command_failed() },
                Err(error) => FailureReportView { log: None, error },
            },
        }
    }

    /// The job once its failure has been reported.
    pub open spec fn reported(self) -> JobView<P> {
        JobView { state: JobState::Finished, ..self }
    }
}

impl<P> View for Job<P> {
    type V = JobView<P>;

    closed spec fn view(&self) -> JobView<P> {
        JobView { command: self.command@, process: self.process, state: self.state }
    }
}

impl<P> Job<P> {
    /// Binds a process to the command line that started it. Nothing is
    /// waited for and nothing is read.
    pub fn new(raw: (String, P)) -> (job: Job<P>)
        ensures
            job@ == JobView::spawned(raw.0@, raw.1),
            job@.wf(),
    {
        Job { command: raw.0, process: raw.1, state: JobState::Running }
    }

    /// The command line, as it was given when the job was made.
    pub fn command(&self) -> (text: String)
        ensures
            text@ == self@.command,
    {
        self.command.clone()
    }

    /// Where the job stands.
    pub fn state(&self) -> (state: JobState)
        ensures
            state == self@.state,
    {
        self.state
    }

    /// The process, to wait for it or to read its streams. The command line
    /// and the state stay as they are.
    pub fn process_mut(&mut self) -> (process: &mut P)
        ensures
            *process == old(self)@.process,
            final(self)@ == (JobView { process: *final(process), ..old(self)@ }),
    {
        &mut self.process
    }

    /// Settles the job with what waiting for its process gave.
    ///
    /// A process that ended with exit code zero finishes the job with
    /// success. One that ended otherwise leaves the job failed, holding the
    /// code to report, and asks for the error stream. Where the wait itself
    /// failed, that failure is the job's result.
    ///
    /// A job is waited for once: the call is for a job that is still running.
    pub fn yield_self(&mut self, waited: Result<ExitStatus, IoError>) -> (next: Yield)
        requires
            old(self)@.state == JobState::Running,
        ensures
            final(self)@ == old(self)@.waited(result_view(waited)),
            next@ == old(self)@.yields(result_view(waited)),
            final(self)@.wf(),
    {
        match waited {
            Err(failure) => {
                self.state = JobState::Finished;
                Yield::Done(Err(YabsError::Io(failure)))
            },
            Ok(status) => {
                if status.success() {
                    self.state = JobState::Finished;
                    Yield::Done(Ok(()))
                } else {
                    self.state = JobState::Failed(status.exit_code());
                    Yield::Drain
                }
            },
        }
    }

    /// Ends a failed job, given what reading its error stream to the end
    /// gave, or `None` where the process has no error stream attached.
    ///
    /// The report holds the error to return and, where the stream was read
    /// and is text, that text for the diagnostic log.
    pub fn report_failure(&mut self, drained: Option<Result<Vec<u8>, IoError>>) -> (report:
        FailureReport)
        requires
            old(self)@.state is Failed,
        ensures
            final(self)@ == old(self)@.reported(),
            report@ == old(self)@.failure_report(drained_view(drained)),
    {
        let code = match self.state {
            JobState::Failed(code) => code,
            _ => 1,
        };
        self.state = JobState::Finished;
        match drained {
            None => FailureReport { log: None, error: YabsError::Command(self.command(), code) },
            Some(Err(failure)) => FailureReport { log: None, error: YabsError::Io(failure) },
            Some(Ok(bytes)) => match decode_text(bytes) {
                Ok(text) => FailureReport {
                    log: Some(text),
                    error: YabsError::Command(self.command(), code),
                },
                Err(error) => FailureReport { log: None, error },
            },
        }
    }
}

} // verus!
