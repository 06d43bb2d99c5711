//! Plain values that stand for a process that has ended: what the operating
//! system reports of it, and what it wrote.

use vstd::prelude::*;

verus! {

/// How a process ended: its exit code, or `None` where the system reports
/// none, as for a process that a signal terminated.
#[derive(Debug, Clone, Copy, PartialEq, Eq)]
pub struct ExitStatus {
    pub code: Option<i32>,
}

impl View for ExitStatus {
    type V = ExitStatus;

    open spec fn view(&self) -> ExitStatus {
        *self
    }
}

impl ExitStatus {
    /// Success is an exit code of zero.
    pub open spec fn spec_success(&self) -> bool {
        self.code == Some(0i32)
    }

    /// The code to report: the exit code where there is one, else 1.
    pub open spec fn spec_exit_code(&self) -> i32 {
        match self.code {
            Some(code) => code,
            None => 1i32,
        }
    }

    /// Whether the process ended successfully.
    #[verifier::when_used_as_spec(spec_success)]
    pub fn success(&self) -> (ok: bool)
        ensures
            ok == self.spec_success(),
    {
        match self.code {
            Some(code) => code == 0,
            None => false,
        }
    }

    /// The exit code, with 1 standing in where the system reported none.
    #[verifier::when_used_as_spec(spec_exit_code)]
    pub fn exit_code(&self) -> (code: i32)
        ensures
            code == self.spec_exit_code(),
    {
        match self.code {
            Some(code) => code,
            None => 1,
        }
    }
}

/// What a process that has ended left behind: its status and everything
/// that was captured of its output and error streams.
#[derive(Debug, PartialEq, Eq)]
pub struct Output {
    pub status: ExitStatus,
    pub stdout: Vec<u8>,
    pub stderr: Vec<u8>,
}

/// The mathematical value of an [`Output`].
pub struct OutputView {
    pub status: ExitStatus,
    pub stdout: Seq<u8>,
    pub stderr: Seq<u8>,
}

impl View for Output {
    type V = OutputView;

    open spec fn view(&self) -> OutputView {
        OutputView { status: self.status, stdout: self.stdout@, stderr: self.stderr@ }
    }
}

} // verus!
