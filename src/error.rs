//! Errors of the operations and their text.

use vstd::prelude::*;
use crate::text::join2;

verus! {

/// What went wrong; each variant carries a description.
#[derive(Debug)]
pub enum SafeBackupError {
    /// A filename broke a rule, or names something that is not a regular file.
    InvalidPath(String),
    /// A file that the operation needs is absent.
    FileNotFound(String),
    /// Reading, writing, opening, flushing or deleting failed.
    IoError(String),
    /// Reserved: no rule raises it.
    PermissionDenied(String),
}

/// The mathematical form of an error: its kind and its description.
pub enum Failure {
    InvalidPath(Seq<char>),
    FileNotFound(Seq<char>),
    IoError(Seq<char>),
    PermissionDenied(Seq<char>),
}

impl View for SafeBackupError {
    type V = Failure;

    open spec fn view(&self) -> Failure {
        match self {
            SafeBackupError::InvalidPath(m) => Failure::InvalidPath(m@),
            SafeBackupError::FileNotFound(m) => Failure::FileNotFound(m@),
            SafeBackupError::IoError(m) => Failure::IoError(m@),
            SafeBackupError::PermissionDenied(m) => Failure::PermissionDenied(m@),
        }
    }
}

/// The one-line text of an error, as it is shown to the user.
pub open spec fn failure_text(f: Failure) -> Seq<char> {
    match f {
        Failure::InvalidPath(m) => "Invalid path: "@ + m,
        Failure::FileNotFound(m) => "File not found: "@ + m,
        Failure::IoError(m) => "IO error: "@ + m,
        Failure::PermissionDenied(m) => "Permission denied: "@ + m,
    }
}

impl SafeBackupError {
    /// The error as one line of text: its kind, then its description.
    pub fn message(&self) -> (r: String)
        ensures
            r@ == failure_text(self@),
    {
        match self {
            SafeBackupError::InvalidPath(m) => join2("Invalid path: ", m.as_str()),
            SafeBackupError::FileNotFound(m) => join2("File not found: ", m.as_str()),
            SafeBackupError::IoError(m) => join2("IO error: ", m.as_str()),
            SafeBackupError::PermissionDenied(m) => join2("Permission denied: ", m.as_str()),
        }
    }
}

} // verus!
