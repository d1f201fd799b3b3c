//! The decision core of every native callback: validate what the shell
//! recovered, delegate to the backend, and translate the result into the
//! native status vocabulary.
//!
//! The raw callbacks themselves are thin unverified shells; everything
//! they decide — guards, flag decoding, error translation, the
//! best-effort pathname fallback — is a function here.

use vstd::prelude::*;
use crate::codes::{
    ACCESS_EXISTS, ACCESS_READ, ACCESS_READWRITE, DESCRIPTOR_VERSION, STATUS_CANTOPEN,
    STATUS_IOERR_ACCESS, STATUS_OK,
};
use crate::errors::{
    lemma_failure_status_not_ok, operation_failure_status, spec_operation_failure_status,
    spec_possible_failure_status, BackendError, Operation, ProtocolError,
};
use crate::file::WrappedFile;
use crate::flags::{decode_open_flags, AccessFlag};
use crate::lock::LockFlag;
use crate::vfs::VirtualFilesystem;

verus! {

/// Guards a callback's wiring: the opaque slot must have resolved to a
/// live instance and the descriptor must carry the version the adapter
/// wrote. A violation is reported, never panicked on.
pub fn instance_guard(instance_found: bool, version: i32) -> (r: Result<(), ProtocolError>)
    ensures
        r is Ok <==> (instance_found && version == DESCRIPTOR_VERSION),
        !instance_found ==> r == Err::<(), ProtocolError>(ProtocolError::MissingInstance),
        instance_found && version != DESCRIPTOR_VERSION ==> r == Err::<(), ProtocolError>(
            ProtocolError::VersionMismatch,
        ),
{
    if !instance_found {
        Err(ProtocolError::MissingInstance)
    } else if version != DESCRIPTOR_VERSION {
        Err(ProtocolError::VersionMismatch)
    } else {
        Ok(())
    }
}

/// Opens a file through the backend: decodes the native flag bits, asks
/// the backend, and on success binds the issued token into a fresh
/// wrapper — open, unlocked, carrying the backend's ordering demand. On
/// failure no wrapper exists, so the shell leaves the native file record
/// untouched.
pub fn vfs_open<FS: VirtualFilesystem>(fs: &mut FS, path: &String, flag_bits: u32) -> (r: (
    i32,
    Option<WrappedFile>,
))
    requires
        old(fs).inv(),
    ensures
        final(fs).inv(),
        r.0 == STATUS_OK <==> r.1 is Some,
        r.1 is Some ==> r.1->0.is_open() && r.1->0.lock_level() == LockFlag::Unlocked
            && r.1->0.strict_order() == final(fs).strict_lock_order(),
        r.0 == STATUS_OK || spec_possible_failure_status(Operation::Open, r.0),
{
    let flags = decode_open_flags(flag_bits);
    match fs.open(path, &flags) {
        Ok(token) => {
            let strict = fs.strict_locking();
            (STATUS_OK, Some(WrappedFile::wrap(token, strict)))
        },
        Err(e) => {
            proof {
                lemma_failure_status_not_ok(Operation::Open, e);
            }
            (operation_failure_status(Operation::Open, &e), None)
        },
    }
}

/// Deletes a file through the backend and maps the outcome.
pub fn vfs_delete<FS: VirtualFilesystem>(fs: &mut FS, path: &String, sync_to_system: bool) -> (r:
    i32)
    requires
        old(fs).inv(),
    ensures
        final(fs).inv(),
        r == STATUS_OK || spec_possible_failure_status(Operation::Delete, r),
{
    match fs.delete(path, sync_to_system) {
        Ok(()) => STATUS_OK,
        Err(e) => operation_failure_status(Operation::Delete, &e),
    }
}

/// Turns the backend's answer to an access query into the status and the
/// yes-or-no the host engine reads: an answered query succeeds with one
/// or zero, and only a failure beyond `NotFound` becomes an error
/// status.
pub fn access_outcome(result: Result<(), BackendError>) -> (r: (i32, i32))
    ensures
        result is Ok ==> r == (STATUS_OK, 1i32),
        result == Err::<(), BackendError>(BackendError::NotFound) ==> r == (STATUS_OK, 0i32),
        result is Err && result->Err_0 != BackendError::NotFound ==> r.0
            == spec_operation_failure_status(Operation::Access, result->Err_0) && r.1 == 0,
{
    match result {
        Ok(()) => (STATUS_OK, 1),
        Err(BackendError::NotFound) => (STATUS_OK, 0),
        Err(e) => (operation_failure_status(Operation::Access, &e), 0),
    }
}

/// Answers an access query through the backend: the native query code
/// becomes the one structured flag it names, an unknown code is the
/// access-check failure, and the backend's answer goes through
/// `access_outcome`.
pub fn vfs_access<FS: VirtualFilesystem>(fs: &FS, path: &String, code: i32) -> (r: (i32, i32))
    requires
        fs.inv(),
    ensures
        !(code == ACCESS_EXISTS || code == ACCESS_READ || code == ACCESS_READWRITE) ==> r == (
            STATUS_IOERR_ACCESS,
            0i32,
        ),
        r.0 == STATUS_OK || spec_possible_failure_status(Operation::Access, r.0),
        r.1 == 0 || r.1 == 1,
{
    match AccessFlag::from_native(code) {
        None => {
            proof {
                lemma_failure_status_not_ok(Operation::Access, BackendError::IOFailure);
                assert(STATUS_IOERR_ACCESS == spec_operation_failure_status(
                    Operation::Access,
                    BackendError::IOFailure,
                ));
            }
            (STATUS_IOERR_ACCESS, 0)
        },
        Some(flag) => {
            let mut flags: Vec<AccessFlag> = Vec::new();
            flags.push(flag);
            let result = fs.access(path, &flags);
            proof {
                if result is Err {
                    lemma_failure_status_not_ok(Operation::Access, result->Err_0);
                }
            }
            access_outcome(result)
        },
    }
}

/// The path a full-pathname callback hands back: the backend's canonical
/// form when it gave one, else the input unchanged — failing this call
/// would abort the host engine's whole open sequence.
pub open spec fn spec_resolved_path(path: Seq<char>, resolved: Result<
    String,
    BackendError,
>) -> Seq<char> {
    match resolved {
        Ok(s) => s@,
        Err(_) => path,
    }
}

/// Decides a full-pathname callback from the backend's answer: always
/// the best-effort path, succeeding whenever it fits the caller's
/// buffer, and failing only when it cannot be written at all.
pub fn full_pathname_decision(path: &String, buffer_len: usize, resolved: Result<
    String,
    BackendError,
>) -> (r: (i32, Option<String>))
    ensures
        r.0 == STATUS_OK || r.0 == STATUS_CANTOPEN,
        r.0 == STATUS_OK <==> spec_resolved_path(path@, resolved).len() < buffer_len,
        r.0 == STATUS_OK ==> r.1 is Some && r.1->0@ == spec_resolved_path(path@, resolved),
        r.0 != STATUS_OK ==> r.1 is None,
{
    let chosen: String = match resolved {
        Ok(s) => s,
        Err(_) => path.clone(),
    };
    if chosen.as_str().unicode_len() < buffer_len {
        (STATUS_OK, Some(chosen))
    } else {
        (STATUS_CANTOPEN, None)
    }
}

/// Resolves a full pathname through the backend, with the fallback of
/// `full_pathname_decision`.
pub fn vfs_full_pathname<FS: VirtualFilesystem>(fs: &FS, path: &String, buffer_len: usize) -> (r: (
    i32,
    Option<String>,
))
    requires
        fs.inv(),
    ensures
        r.0 == STATUS_OK || r.0 == STATUS_CANTOPEN,
        r.0 == STATUS_OK ==> r.1 is Some && r.1->0@.len() < buffer_len,
        r.0 != STATUS_OK ==> r.1 is None,
{
    let resolved = fs.full_pathname(path);
    full_pathname_decision(path, buffer_len, resolved)
}

/// Reports the last error to the host engine: the callback always
/// succeeds, carrying the message it was handed or a fixed note that
/// none was provided.
pub fn last_error_report(provided: Option<String>) -> (r: (i32, String))
    ensures
        r.0 == STATUS_OK,
        provided is Some ==> r.1 == provided->0,
        provided is None ==> r.1@ == "unknown storage error: no message provided"@,
{
    match provided {
        Some(msg) => (STATUS_OK, msg),
        None => (STATUS_OK, "unknown storage error: no message provided".to_owned()),
    }
}

/// The fixed distance, in milliseconds, between the epoch the machine
/// clock counts from and the day-zero the host engine's timestamps count
/// from.
pub const EPOCH_TO_DAY_ZERO_MILLIS: i64 = 210866760000000;

/// The host engine's millisecond timestamp for a machine-clock reading:
/// the documented fixed offset, refused rather than wrapped when the sum
/// would not fit.
pub fn current_time_millis(unix_millis: i64) -> (r: Option<i64>)
    ensures
        unix_millis + EPOCH_TO_DAY_ZERO_MILLIS <= i64::MAX ==> r == Some(
            (unix_millis + EPOCH_TO_DAY_ZERO_MILLIS) as i64,
        ),
        unix_millis + EPOCH_TO_DAY_ZERO_MILLIS > i64::MAX ==> r is None,
{
    if unix_millis > i64::MAX - EPOCH_TO_DAY_ZERO_MILLIS {
        None
    } else {
        Some(unix_millis + EPOCH_TO_DAY_ZERO_MILLIS)
    }
}

} // verus!
