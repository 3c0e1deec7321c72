//! The error taxonomy shared by every component.
//!
//! Each failing operation reports a structured code plus a human-readable
//! detail string. No operation leaves an instance in an inconsistent shape
//! after failing: a failure either completed nothing or reverted what it
//! had begun, and the contracts of the operations say which.

use vstd::prelude::*;

verus! {

/// The structured failure codes.
#[derive(Clone, Copy, Debug, PartialEq, Eq, Structural)]
pub enum ErrorKind {
    /// The requested operation is invalid for the current state.
    Conflict,
    /// A port is already taken, internally or on the host.
    ResourceUnavailable,
    /// A filesystem or process-spawn failure reported by the runtime.
    Io,
    /// The process's standard streams are gone or refuse writes.
    ProcessCommunication,
    /// A user script failed, timed out or was aborted.
    TaskFailure,
    /// An unknown instance id, task id or port.
    NotFound,
}

/// A structured code plus a detail string for humans.
#[derive(Clone, Debug)]
pub struct Error {
    pub kind: ErrorKind,
    pub detail: String,
}

impl Error {
    pub fn new(kind: ErrorKind, detail: String) -> (r: Self)
        ensures
            r.kind == kind,
            r.detail == detail,
    {
        Self { kind, detail }
    }

    /// The human-readable side of the error.
    pub fn message(&self) -> (r: &String)
        ensures
            r == &self.detail,
    {
        &self.detail
    }
}

} // verus!
