//! The errors that running a command can end in.

use vstd::prelude::*;

verus! {

/// An operation of the operating system that did not succeed.
///
/// The variants that carry a text hold the system's own message.
#[derive(Debug, PartialEq, Eq)]
pub enum IoError {
    /// The shell could not be started.
    Spawn(String),
    /// Waiting for the process to end failed.
    Wait(String),
    /// A file could not be opened.
    Open(String),
    /// A stream or a file could not be read to its end.
    Read(String),
    /// Captured bytes are not valid UTF-8 text.
    InvalidUtf8,
}

/// The mathematical value of an [`IoError`].
pub enum IoErrorView {
    Spawn(Seq<char>),
    Wait(Seq<char>),
    Open(Seq<char>),
    Read(Seq<char>),
    InvalidUtf8,
}

impl View for IoError {
    type V = IoErrorView;

    open spec fn view(&self) -> IoErrorView {
        match *self {
            IoError::Spawn(message) => IoErrorView::Spawn(message@),
            IoError::Wait(message) => IoErrorView::Wait(message@),
            IoError::Open(message) => IoErrorView::Open(message@),
            IoError::Read(message) => IoErrorView::Read(message@),
            IoError::InvalidUtf8 => IoErrorView::InvalidUtf8,
        }
    }
}

/// Why a command did not run to a successful end.
#[derive(Debug, PartialEq, Eq)]
pub enum YabsError {
    /// The process ran and ended unsuccessfully: the command text and the
    /// exit code, which is 1 where the system reported none.
    Command(String, i32),
    /// The system refused an operation, or captured output was not text.
    Io(IoError),
}

/// The mathematical value of a [`YabsError`].
pub enum YabsErrorView {
    Command(Seq<char>, int),
    Io(IoErrorView),
}

impl View for YabsError {
    type V = YabsErrorView;

    open spec fn view(&self) -> YabsErrorView {
        match *self {
            YabsError::Command(command, code) => YabsErrorView::Command(command@, code as int),
            YabsError::Io(failure) => YabsErrorView::Io(failure@),
        }
    }
}

/// The mathematical value of a `Result`: that of what it holds, on either
/// side.
pub open spec fn result_view<T: View, E: View>(result: Result<T, E>) -> Result<T::V, E::V> {
    match result {
        Ok(value) => Ok(value@),
        Err(error) => Err(error@),
    }
}

} // verus!
