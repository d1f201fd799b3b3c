//! The adapter's error domains and their fixed mapping onto the host
//! engine's native status codes.
//!
//! Backend failures are mapped through one exhaustive table; a protocol
//! violation (a callback finding its own wiring broken) always becomes the
//! generic input/output failure so the host process is never aborted; and
//! when the failing operation is known, an input/output failure is refined
//! to that operation's dedicated status code.

use vstd::prelude::*;
use crate::codes::{
    STATUS_BUSY, STATUS_CANTOPEN, STATUS_IOERR, STATUS_IOERR_ACCESS,
    STATUS_IOERR_CHECKRESERVEDLOCK, STATUS_IOERR_CLOSE, STATUS_IOERR_DELETE, STATUS_IOERR_FSYNC,
    STATUS_IOERR_FSTAT, STATUS_IOERR_LOCK, STATUS_IOERR_READ, STATUS_IOERR_TRUNCATE,
    STATUS_IOERR_UNLOCK, STATUS_IOERR_WRITE, STATUS_NOTFOUND, STATUS_OK, STATUS_PERM,
};

verus! {

/// A failure reported by a storage backend.
#[derive(Clone, Copy, Debug, PartialEq, Eq, Structural)]
pub enum BackendError {
    /// The named file does not exist.
    NotFound,
    /// The backend refused access to the file.
    PermissionDenied,
    /// The backend failed while performing input/output.
    IOFailure,
    /// Another party holds a conflicting lock.
    Busy,
    /// The backend does not implement the requested operation.
    Unsupported,
}

/// A violation of the adapter's own wiring contract, found inside a
/// callback: the opaque instance pointer was absent, or the descriptor
/// carried a version the adapter never populates. Reported as a status,
/// never as an abort of the host process.
#[derive(Clone, Copy, Debug, PartialEq, Eq, Structural)]
pub enum ProtocolError {
    /// No live instance stands behind the descriptor's opaque slot.
    MissingInstance,
    /// The descriptor's version tag is not the one the adapter wrote.
    VersionMismatch,
}

/// A failure while registering an instance with the host engine.
#[derive(Clone, Copy, Debug, PartialEq, Eq, Structural)]
pub enum RegistrationError {
    /// The name is already registered with a different backend.
    NameCollision,
    /// Memory for the native descriptor could not be obtained.
    AllocationFailure,
}

/// A failure while unregistering an instance from the host engine.
#[derive(Clone, Copy, Debug, PartialEq, Eq, Structural)]
pub enum UnregistrationError {
    /// The host engine reports the instance cannot be removed yet.
    InUse,
    /// No instance of that name is registered.
    NotRegistered,
}

/// An operation of the storage protocol, named so a failure can be refined
/// to the operation's own status code.
#[derive(Clone, Copy, Debug, PartialEq, Eq, Structural)]
pub enum Operation {
    Open,
    Delete,
    Access,
    FullPathname,
    Read,
    Write,
    Truncate,
    Sync,
    Size,
    Lock,
    Unlock,
    CheckReservedLock,
    Close,
}

/// The fixed table from backend errors to native status codes.
pub open spec fn spec_backend_error_status(e: BackendError) -> i32 {
    match e {
        BackendError::NotFound => STATUS_CANTOPEN,
        BackendError::PermissionDenied => STATUS_PERM,
        BackendError::IOFailure => STATUS_IOERR,
        BackendError::Busy => STATUS_BUSY,
        BackendError::Unsupported => STATUS_NOTFOUND,
    }
}

/// Maps a backend error to its native status code.
pub fn backend_error_status(e: &BackendError) -> (r: i32)
    ensures
        r == spec_backend_error_status(*e),
{
    match e {
        BackendError::NotFound => STATUS_CANTOPEN,
        BackendError::PermissionDenied => STATUS_PERM,
        BackendError::IOFailure => STATUS_IOERR,
        BackendError::Busy => STATUS_BUSY,
        BackendError::Unsupported => STATUS_NOTFOUND,
    }
}

/// Every backend error maps to a distinct native status code, and every
/// code the table produces is one of the documented five.
pub proof fn lemma_backend_error_status_exact(a: BackendError, b: BackendError)
    ensures
        spec_backend_error_status(a) == spec_backend_error_status(b) ==> a == b,
        spec_backend_error_status(a) == STATUS_CANTOPEN
            || spec_backend_error_status(a) == STATUS_PERM
            || spec_backend_error_status(a) == STATUS_IOERR
            || spec_backend_error_status(a) == STATUS_BUSY
            || spec_backend_error_status(a) == STATUS_NOTFOUND,
{
}

/// The status code for an input/output failure during the given operation.
pub open spec fn spec_io_failure_status(op: Operation) -> i32 {
    match op {
        Operation::Open => STATUS_CANTOPEN,
        Operation::Delete => STATUS_IOERR_DELETE,
        Operation::Access => STATUS_IOERR_ACCESS,
        Operation::FullPathname => STATUS_IOERR,
        Operation::Read => STATUS_IOERR_READ,
        Operation::Write => STATUS_IOERR_WRITE,
        Operation::Truncate => STATUS_IOERR_TRUNCATE,
        Operation::Sync => STATUS_IOERR_FSYNC,
        Operation::Size => STATUS_IOERR_FSTAT,
        Operation::Lock => STATUS_IOERR_LOCK,
        Operation::Unlock => STATUS_IOERR_UNLOCK,
        Operation::CheckReservedLock => STATUS_IOERR_CHECKRESERVEDLOCK,
        Operation::Close => STATUS_IOERR_CLOSE,
    }
}

/// The status a callback reports for a backend failure: an input/output
/// failure carries the failing operation's own code, every other backend
/// error keeps its place in the fixed table.
pub open spec fn spec_operation_failure_status(op: Operation, e: BackendError) -> i32 {
    if e == BackendError::IOFailure {
        spec_io_failure_status(op)
    } else {
        spec_backend_error_status(e)
    }
}

/// Maps a backend failure during `op` to the status a callback returns.
pub fn operation_failure_status(op: Operation, e: &BackendError) -> (r: i32)
    ensures
        r == spec_operation_failure_status(op, *e),
{
    if *e == BackendError::IOFailure {
        match op {
            Operation::Open => STATUS_CANTOPEN,
            Operation::Delete => STATUS_IOERR_DELETE,
            Operation::Access => STATUS_IOERR_ACCESS,
            Operation::FullPathname => STATUS_IOERR,
            Operation::Read => STATUS_IOERR_READ,
            Operation::Write => STATUS_IOERR_WRITE,
            Operation::Truncate => STATUS_IOERR_TRUNCATE,
            Operation::Sync => STATUS_IOERR_FSYNC,
            Operation::Size => STATUS_IOERR_FSTAT,
            Operation::Lock => STATUS_IOERR_LOCK,
            Operation::Unlock => STATUS_IOERR_UNLOCK,
            Operation::CheckReservedLock => STATUS_IOERR_CHECKRESERVEDLOCK,
            Operation::Close => STATUS_IOERR_CLOSE,
        }
    } else {
        backend_error_status(e)
    }
}

/// `r` is a status the mapping can produce for a failure of `op`.
pub open spec fn spec_possible_failure_status(op: Operation, r: i32) -> bool {
    exists|e: BackendError| r == #[trigger] spec_operation_failure_status(op, e)
}

/// A failure never maps to the success status.
pub proof fn lemma_failure_status_not_ok(op: Operation, e: BackendError)
    ensures
        spec_operation_failure_status(op, e) != STATUS_OK,
{
}

/// The success status is never among the failure statuses of any
/// operation.
pub proof fn lemma_ok_not_failure_status(op: Operation)
    ensures
        !spec_possible_failure_status(op, STATUS_OK),
{
    assert forall|e: BackendError| STATUS_OK != #[trigger] spec_operation_failure_status(
        op,
        e,
    ) by {
        lemma_failure_status_not_ok(op, e);
    }
}

/// A protocol violation is always reported as the generic input/output
/// failure, whatever the violation was.
pub fn protocol_error_status(e: &ProtocolError) -> (r: i32)
    ensures
        r == STATUS_IOERR,
{
    match e {
        ProtocolError::MissingInstance => STATUS_IOERR,
        ProtocolError::VersionMismatch => STATUS_IOERR,
    }
}

} // verus!
