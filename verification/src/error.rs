//! The error that hardware access reports.
use vstd::prelude::*;

verus! {

/// What kind of failure a hardware access reported.
#[derive(Debug, Clone, Copy, PartialEq, Eq, Structural)]
pub enum IoErrorKind {
    /// The file, field or device does not exist.
    NotFound,
    /// An argument was out of range.
    InvalidInput,
    /// Data that was read is malformed.
    InvalidData,
    /// The operation is not supported by this hardware.
    Unsupported,
    /// The caller may not make this change.
    PermissionDenied,
    /// The entry to be created exists already.
    AlreadyExists,
    /// Any other failure.
    Other,
}

/// A failed hardware access: its kind and a human-readable message.
#[derive(Debug, Clone)]
pub struct IoError {
    pub kind: IoErrorKind,
    pub message: String,
}

} // verus!
