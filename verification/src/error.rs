//! The ways in which a request can fail.

use crate::cli::Rejection;
use vstd::prelude::*;

verus! {

/// Which piece of text could not be understood.
#[derive(Debug, Clone, Copy, PartialEq, Eq, Structural)]
pub enum Malformed {
    /// The line index given on the command line.
    LineIndex,
    /// The configuration document as a whole.
    ConfigDocument,
    /// The notes directory in the configuration document is not a string.
    NotesDir,
    /// The log file in the configuration document is not a string.
    LogFile,
    /// The logging switch in the configuration document is not a boolean.
    LogEnabled,
}

/// Why a request was not carried out. Failures of the disk itself are not
/// among these: they arise outside the library.
#[derive(Debug, Clone, Copy, PartialEq, Eq, Structural)]
pub enum Failure {
    /// The combination of flags and arguments is not legal.
    Validation(Rejection),
    /// The topic that the request is about does not exist.
    NotFound,
    /// The line index is not below the number of lines of the topic.
    OutOfRange,
    /// A text that should hold a value does not.
    Parse(Malformed),
}

/// Exit code of a run that did what was asked.
pub const OK: i32 = 0;

/// Exit code of a run whose command line was refused.
pub const VALIDATION_FAIL: i32 = 1;

/// Exit code of a run whose topic does not exist.
pub const TARGET_NOT_FOUND: i32 = 2;

impl Failure {
    /// The exit code that belongs to this failure, where it has one of its
    /// own.
    pub open spec fn code(self) -> Option<i32> {
        match self {
            Failure::Validation(_) => Some(VALIDATION_FAIL),
            Failure::NotFound => Some(TARGET_NOT_FOUND),
            Failure::OutOfRange => None,
            Failure::Parse(_) => None,
        }
    }

    /// The exit code that belongs to this failure, where it has one of its
    /// own.
    pub fn exit_code(&self) -> (code: Option<i32>)
        ensures
            code == self.code(),
    {
        match self {
            Failure::Validation(_) => Some(VALIDATION_FAIL),
            Failure::NotFound => Some(TARGET_NOT_FOUND),
            Failure::OutOfRange => None,
            Failure::Parse(_) => None,
        }
    }
}

} // verus!
