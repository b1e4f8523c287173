//! The error type used by every operation of this library.
//!
//! Operating-system failures are carried as a category plus a message.
//! The categories mirror the conditions the library's logic has to tell
//! apart: retryable signals, the "already exists" collision used by the
//! scratch-name protocol, the "no data" and "result too large" signals of
//! the extended-attribute calls, and so on.

use vstd::prelude::*;

verus! {

use vstd::string::StringExecFns;

/// The category of a failure.
#[derive(Clone, Copy, Debug, PartialEq, Eq, Structural)]
pub enum ErrorKind {
    /// The path does not name an existing entry.
    NotFound,
    /// An entry with this name already exists.
    AlreadyExists,
    /// The argument was malformed, e.g. a path without a filename.
    InvalidInput,
    /// The operation was denied, including attempts to escape a
    /// capability root.
    PermissionDenied,
    /// The operation is not supported by the platform or filesystem.
    Unsupported,
    /// The resource is temporarily unavailable; the operation may be
    /// retried.
    WouldBlock,
    /// The call was interrupted by a signal; the operation may be
    /// retried.
    Interrupted,
    /// The operation would cross a filesystem mount boundary.
    CrossesDevices,
    /// The requested attribute is not set.
    NoData,
    /// The supplied buffer was too small for the result.
    ResultTooLarge,
    /// Data was not valid for the requested conversion, e.g. bytes that
    /// are not UTF-8.
    InvalidData,
    /// Any other failure.
    Other,
}

/// A failure: a category together with a human-readable message.
#[derive(Debug)]
pub struct Error {
    /// The category of this failure.
    pub kind: ErrorKind,
    /// A human-readable description of this failure.
    pub message: String,
}

impl Error {
    /// Build an error of the given category.
    pub fn new(kind: ErrorKind, message: String) -> (r: Error)
        ensures
            r.kind == kind,
            r.message@ == message@,
    {
        Error { kind, message }
    }

    /// The category of this failure.
    pub fn kind(&self) -> (k: ErrorKind)
        ensures
            k == self.kind,
    {
        self.kind
    }

    /// A human-readable description of this failure.
    pub fn to_message(&self) -> (m: String)
        ensures
            m@ == self.message@,
    {
        String::from_str(self.message.as_str())
    }

    /// This failure with its category replaced and its message kept.
    pub fn with_kind(self, kind: ErrorKind) -> (r: Error)
        ensures
            r.kind == kind,
            r.message@ == self.message@,
    {
        Error { kind, message: self.message }
    }
}

/// The error reported when a path would lead outside of the directory or
/// root it is resolved against.
pub fn escape_attempt() -> (r: Error)
    ensures
        r.kind == ErrorKind::PermissionDenied,
{
    Error::new(ErrorKind::PermissionDenied, "a path led outside of the filesystem".to_owned())
}

} // verus!
