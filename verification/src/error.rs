//! What can go wrong while a project is generated.

use crate::name::InvalidProjectNameReason;
use crate::path::{PathView, ProjectPath};
use vstd::prelude::*;

verus! {

/// The failure of a run. Every failure ends the run: nothing is retried and
/// nothing that was already made is taken back.
#[derive(Debug, Clone, PartialEq, Eq)]
pub enum Error {
    /// The project name was rejected. Nothing has been done to the file
    /// system.
    InvalidProjectName { name: String, reason: InvalidProjectNameReason },
    /// The directory could not be made.
    DirectoryCreationFailed { path: ProjectPath, cause: String },
    /// The file could not be created or emptied, or the write did not
    /// complete. The file may be left with part of its contents.
    FileWriteFailed { path: ProjectPath, cause: String },
}

/// A failure as mathematical values.
pub enum ErrorView {
    InvalidProjectName { name: Seq<char>, reason: InvalidProjectNameReason },
    DirectoryCreationFailed { path: PathView, cause: Seq<char> },
    FileWriteFailed { path: PathView, cause: Seq<char> },
}

impl View for Error {
    type V = ErrorView;

    open spec fn view(&self) -> ErrorView {
        match self {
            Error::InvalidProjectName { name, reason } => ErrorView::InvalidProjectName {
                name: name@,
                reason: *reason,
            },
            Error::DirectoryCreationFailed { path, cause } => ErrorView::DirectoryCreationFailed {
                path: path@,
                cause: cause@,
            },
            Error::FileWriteFailed { path, cause } => ErrorView::FileWriteFailed {
                path: path@,
                cause: cause@,
            },
        }
    }
}

} // verus!
