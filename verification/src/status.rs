//! Status codes, open modes and the classification of storage failures.

use vstd::prelude::*;

verus! {

/// What an operation on a writer reports back to its caller.
#[derive(Debug, Clone, Copy, PartialEq, Eq, Structural)]
pub enum FileWriterError {
    Success,
    FileOpenError,
    FileWriteError,
    /// A final drain of the buffer failed while resizing or closing.
    FileCloseError,
    InvalidHandle,
    InvalidPath,
    InvalidData,
    /// A storage failure that is neither a denied permission nor a missing entry.
    IoError,
}

/// How an existing file is treated when a writer is opened on it.
#[derive(Debug, Clone, Copy, PartialEq, Eq, Structural)]
pub enum FileWriterMode {
    /// Keep what the file holds and continue at its end.
    Append,
    /// Discard what the file holds and start from nothing.
    Write,
}

/// The kinds of storage failure that the status codes tell apart.
#[derive(Debug, Clone, Copy, PartialEq, Eq, Structural)]
pub enum IoFailure {
    PermissionDenied,
    NotFound,
    Other,
}

impl FileWriterError {
    /// The stable ordinal of a status, as it crosses a foreign-call boundary.
    pub open spec fn spec_code(self) -> nat {
        match self {
            FileWriterError::Success => 0,
            FileWriterError::FileOpenError => 1,
            FileWriterError::FileWriteError => 2,
            FileWriterError::FileCloseError => 3,
            FileWriterError::InvalidHandle => 4,
            FileWriterError::InvalidPath => 5,
            FileWriterError::InvalidData => 6,
            FileWriterError::IoError => 7,
        }
    }

    /// The status that stands for a storage failure of the given kind.
    pub open spec fn spec_from_failure(class: IoFailure) -> FileWriterError {
        match class {
            IoFailure::PermissionDenied | IoFailure::NotFound => FileWriterError::FileOpenError,
            IoFailure::Other => FileWriterError::IoError,
        }
    }

    pub fn code(&self) -> (code: u32)
        ensures
            code == self.spec_code(),
    {
        match self {
            FileWriterError::Success => 0,
            FileWriterError::FileOpenError => 1,
            FileWriterError::FileWriteError => 2,
            FileWriterError::FileCloseError => 3,
            FileWriterError::InvalidHandle => 4,
            FileWriterError::InvalidPath => 5,
            FileWriterError::InvalidData => 6,
            FileWriterError::IoError => 7,
        }
    }

    /// Denied permissions and missing entries count as failures to open;
    /// every other storage failure is reported as `IoError`.
    pub fn from_failure(class: IoFailure) -> (status: FileWriterError)
        ensures
            status == Self::spec_from_failure(class),
    {
        match class {
            IoFailure::PermissionDenied => FileWriterError::FileOpenError,
            IoFailure::NotFound => FileWriterError::FileOpenError,
            IoFailure::Other => FileWriterError::IoError,
        }
    }
}

/// `std::io::Error`, carried through as it comes: nothing is known of what
/// such a value holds but what `classify` says of it.
#[verifier::external_type_specification]
#[verifier::external_body]
pub struct ExIoError(std::io::Error);

/// The kind of failure that `std::io::Error::kind` reports for an error.
pub uninterp spec fn failure_of(err: std::io::Error) -> IoFailure;

/// Calls `std::io::Error::kind` and sorts the answer into the three kinds
/// that the status codes tell apart. The contract claims only that the
/// answer depends on nothing but the error: one error always has one kind.
#[verifier::external_body]
fn classify(err: &std::io::Error) -> (class: IoFailure)
    ensures
        class == failure_of(*err),
{
    match err.kind() {
        std::io::ErrorKind::PermissionDenied => IoFailure::PermissionDenied,
        std::io::ErrorKind::NotFound => IoFailure::NotFound,
        _ => IoFailure::Other,
    }
}

/// The status that stands for a storage failure, by the kind that the
/// standard library reports for it.
impl From<std::io::Error> for FileWriterError {
    fn from(err: std::io::Error) -> (status: FileWriterError) {
        FileWriterError::from_failure(classify(&err))
    }
}

impl vstd::std_specs::convert::FromSpecImpl<std::io::Error> for FileWriterError {
    open spec fn obeys_from_spec() -> bool {
        true
    }

    open spec fn from_spec(err: std::io::Error) -> FileWriterError {
        FileWriterError::spec_from_failure(failure_of(err))
    }
}

} // verus!
