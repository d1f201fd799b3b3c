//! The per-handle file wrapper: one open file of a backend, bound to the
//! state the host engine's protocol needs the adapter to keep for it.
//!
//! The wrapper mirrors the backend's last acknowledged lock level, remembers
//! whether the handle is still open, and enforces the locking protocol's
//! ordering before a request ever reaches the backend. Closing is
//! idempotent: the host engine's defensive second close is a successful
//! no-op. A short read is reported as its own status, never as success.

use vstd::prelude::*;
use crate::codes::{
    STATUS_IOERR_LOCK, STATUS_IOERR_SHORT_READ, STATUS_IOERR_UNLOCK, STATUS_IOERR_WRITE, STATUS_OK,
};
use crate::errors::{
    lemma_failure_status_not_ok, lemma_ok_not_failure_status, operation_failure_status,
    spec_possible_failure_status, BackendError, Operation,
};
use crate::lock::{
    lock_request_decision, spec_lock_le, spec_lock_request_ok, spec_unlock_request_ok,
    LockDecision, LockFlag,
};
use crate::vfs::VirtualFilesystem;

verus! {

/// The status of a read that came back with `returned` of `requested`
/// bytes: success only when nothing is missing.
pub open spec fn spec_read_status(requested: nat, returned: nat) -> i32 {
    if returned < requested {
        STATUS_IOERR_SHORT_READ
    } else {
        STATUS_OK
    }
}

/// Turns the bytes a backend read into the status and payload the host
/// engine receives: the bytes untouched, and the short-read status
/// exactly when fewer than `requested` came back.
pub fn read_outcome(requested: usize, data: Vec<u8>) -> (r: (i32, Vec<u8>))
    requires
        data@.len() <= requested,
    ensures
        r.1 == data,
        r.0 == spec_read_status(requested as nat, data@.len()),
        r.0 == STATUS_OK <==> data@.len() == requested,
        r.0 == STATUS_OK || r.0 == STATUS_IOERR_SHORT_READ,
{
    if data.len() < requested {
        (STATUS_IOERR_SHORT_READ, data)
    } else {
        (STATUS_OK, data)
    }
}

/// Turns the byte count a backend accepted into the status of a write:
/// success exactly when every byte was accepted, the write-failure status
/// for a partial write, which is reported upward, never retried here.
pub fn write_outcome(accepted: usize, requested: usize) -> (r: i32)
    requires
        accepted <= requested,
    ensures
        r == STATUS_OK <==> accepted == requested,
        r == STATUS_OK || r == STATUS_IOERR_WRITE,
{
    if accepted == requested {
        STATUS_OK
    } else {
        STATUS_IOERR_WRITE
    }
}

/// One open file of a backend, with the adapter-side state of the host
/// engine's protocol: the handle token the backend issued, the mirrored
/// lock level, openness, and the backend's lock-ordering demand.
pub struct WrappedFile {
    handle: usize,
    lock: LockFlag,
    open: bool,
    strict: bool,
}

impl WrappedFile {
    /// A closed handle holds no lock.
    #[verifier::type_invariant]
    spec fn wf(self) -> bool {
        !self.open ==> self.lock == LockFlag::Unlocked
    }

    /// The backend's handle token for this file.
    pub closed spec fn token(self) -> usize {
        self.handle
    }

    /// The lock level the backend last acknowledged.
    pub closed spec fn lock_level(self) -> LockFlag {
        self.lock
    }

    /// Whether the handle is still open.
    pub closed spec fn is_open(self) -> bool {
        self.open
    }

    /// Whether the backend demands strict lock ordering.
    pub closed spec fn strict_order(self) -> bool {
        self.strict
    }

    /// The mirrored lock level, observably.
    pub fn current_lock(&self) -> (r: LockFlag)
        ensures
            r == self.lock_level(),
    {
        self.lock
    }

    /// Whether the handle is still open, observably.
    pub fn handle_open(&self) -> (r: bool)
        ensures
            r == self.is_open(),
    {
        self.open
    }

    /// Binds a backend's freshly issued handle token into a wrapper:
    /// open, unlocked, remembering the backend's ordering demand.
    pub fn wrap(handle: usize, strict: bool) -> (r: WrappedFile)
        ensures
            r.token() == handle,
            r.lock_level() == LockFlag::Unlocked,
            r.is_open(),
            r.strict_order() == strict,
    {
        WrappedFile { handle, lock: LockFlag::Unlocked, open: true, strict }
    }

    /// Reads up to `amount` bytes at `offset` through the backend. The
    /// payload is at most `amount` bytes; success means all of them came;
    /// a short read carries its own status and exactly the bytes that
    /// were there; any other failure carries the mapped status and no
    /// bytes.
    pub fn read<FS: VirtualFilesystem>(&self, fs: &FS, amount: usize, offset: u64) -> (r: (
        i32,
        Vec<u8>,
    ))
        requires
            self.is_open(),
            fs.inv(),
        ensures
            r.1@.len() <= amount,
            r.0 == STATUS_OK ==> r.1@.len() == amount,
            r.0 == STATUS_IOERR_SHORT_READ ==> r.1@.len() < amount,
            r.0 == STATUS_OK || r.0 == STATUS_IOERR_SHORT_READ || (r.1@.len() == 0
                && spec_possible_failure_status(Operation::Read, r.0)),
    {
        match fs.read(self.handle, amount, offset) {
            Ok(data) => read_outcome(amount, data),
            Err(e) => {
                proof {
                    lemma_failure_status_not_ok(Operation::Read, e);
                }
                (operation_failure_status(Operation::Read, &e), Vec::new())
            },
        }
    }

    /// Writes `data` at `offset` through the backend; reports how many
    /// bytes were accepted and the status: success exactly when all of
    /// `data` was accepted.
    pub fn write<FS: VirtualFilesystem>(&self, fs: &mut FS, data: &Vec<u8>, offset: u64) -> (r: (
        i32,
        usize,
    ))
        requires
            self.is_open(),
            old(fs).inv(),
        ensures
            final(fs).inv(),
            r.1 <= data@.len(),
            r.0 == STATUS_OK ==> r.1 == data@.len(),
            r.0 == STATUS_OK || spec_possible_failure_status(Operation::Write, r.0),
    {
        match fs.write(self.handle, data, offset) {
            Ok(accepted) => {
                let st = write_outcome(accepted, data.len());
                proof {
                    if st != STATUS_OK {
                        lemma_failure_status_not_ok(Operation::Write, BackendError::IOFailure);
                        assert(st == crate::errors::spec_operation_failure_status(
                            Operation::Write,
                            BackendError::IOFailure,
                        ));
                    }
                }
                (st, accepted)
            },
            Err(e) => {
                proof {
                    lemma_failure_status_not_ok(Operation::Write, e);
                }
                (operation_failure_status(Operation::Write, &e), 0)
            },
        }
    }

    /// Shortens the file to at most `length` bytes through the backend.
    pub fn truncate<FS: VirtualFilesystem>(&self, fs: &mut FS, length: u64) -> (r: i32)
        requires
            self.is_open(),
            old(fs).inv(),
        ensures
            final(fs).inv(),
            r == STATUS_OK || spec_possible_failure_status(Operation::Truncate, r),
    {
        match fs.truncate(self.handle, length) {
            Ok(()) => STATUS_OK,
            Err(e) => operation_failure_status(Operation::Truncate, &e),
        }
    }

    /// Flushes the file to durable storage through the backend.
    pub fn sync<FS: VirtualFilesystem>(&self, fs: &mut FS, flags: i32) -> (r: i32)
        requires
            self.is_open(),
            old(fs).inv(),
        ensures
            final(fs).inv(),
            r == STATUS_OK || spec_possible_failure_status(Operation::Sync, r),
    {
        match fs.sync(self.handle, flags) {
            Ok(()) => STATUS_OK,
            Err(e) => operation_failure_status(Operation::Sync, &e),
        }
    }

    /// Asks the backend for the file's size. A backend failure is
    /// propagated as its status, never absorbed into a zero length.
    pub fn size<FS: VirtualFilesystem>(&self, fs: &FS) -> (r: (i32, u64))
        requires
            self.is_open(),
            fs.inv(),
        ensures
            r.0 == STATUS_OK || spec_possible_failure_status(Operation::Size, r.0),
            r.0 != STATUS_OK ==> r.1 == 0,
    {
        match fs.size(self.handle) {
            Ok(n) => (STATUS_OK, n),
            Err(e) => {
                proof {
                    lemma_failure_status_not_ok(Operation::Size, e);
                }
                (operation_failure_status(Operation::Size, &e), 0)
            },
        }
    }

    /// Requests `requested` on the handle. A request at or below the
    /// mirrored level succeeds without consulting the backend; a strict
    /// backend's upgrade out of `Unlocked` to anything but `Shared` is
    /// rejected with the lock-failure status; otherwise the request is
    /// forwarded, and on success the mirror moves to the granted level.
    /// The mirrored level never goes down.
    pub fn lock<FS: VirtualFilesystem>(&mut self, fs: &mut FS, requested: LockFlag) -> (r: i32)
        requires
            old(self).is_open(),
            old(fs).inv(),
        ensures
            final(fs).inv(),
            final(self).is_open(),
            final(self).token() == old(self).token(),
            final(self).strict_order() == old(self).strict_order(),
            spec_lock_le(old(self).lock_level(), final(self).lock_level()),
            spec_lock_le(requested, old(self).lock_level()) ==> r == STATUS_OK
                && final(self).lock_level() == old(self).lock_level(),
            !spec_lock_request_ok(old(self).lock_level(), requested, old(self).strict_order())
                ==> r == STATUS_IOERR_LOCK && final(self).lock_level() == old(self).lock_level(),
            r == STATUS_OK ==> final(self).lock_level() == requested
                || spec_lock_le(requested, old(self).lock_level()),
            r != STATUS_OK ==> final(self).lock_level() == old(self).lock_level() && (r
                == STATUS_IOERR_LOCK || spec_possible_failure_status(Operation::Lock, r)),
    {
        let decision = lock_request_decision(&self.lock, &requested, self.strict);
        match decision {
            LockDecision::Noop => STATUS_OK,
            LockDecision::Reject => STATUS_IOERR_LOCK,
            LockDecision::Forward => {
                match fs.lock(self.handle, requested) {
                    Ok(()) => {
                        self.lock = requested;
                        STATUS_OK
                    },
                    Err(e) => {
                        proof {
                            lemma_failure_status_not_ok(Operation::Lock, e);
                        }
                        operation_failure_status(Operation::Lock, &e)
                    },
                }
            },
        }
    }

    /// Lowers the handle's lock to `requested`. Asking for the level
    /// already held succeeds without consulting the backend; asking for a
    /// higher level is a protocol violation, rejected with the
    /// unlock-failure status; otherwise the request is forwarded, and on
    /// success the mirror moves down to the requested level. The mirrored
    /// level never goes up.
    pub fn unlock<FS: VirtualFilesystem>(&mut self, fs: &mut FS, requested: LockFlag) -> (r: i32)
        requires
            old(self).is_open(),
            old(fs).inv(),
        ensures
            final(fs).inv(),
            final(self).is_open(),
            final(self).token() == old(self).token(),
            final(self).strict_order() == old(self).strict_order(),
            spec_lock_le(final(self).lock_level(), old(self).lock_level()),
            old(self).lock_level() == requested ==> r == STATUS_OK && final(self).lock_level()
                == old(self).lock_level(),
            !spec_unlock_request_ok(old(self).lock_level(), requested) ==> r
                == STATUS_IOERR_UNLOCK && final(self).lock_level() == old(self).lock_level(),
            r == STATUS_OK ==> final(self).lock_level() == requested,
            r != STATUS_OK ==> final(self).lock_level() == old(self).lock_level() && (r
                == STATUS_IOERR_UNLOCK || spec_possible_failure_status(Operation::Unlock, r)),
    {
        if self.lock == requested {
            STATUS_OK
        } else if requested.le(&self.lock) {
            match fs.unlock(self.handle, requested) {
                Ok(()) => {
                    self.lock = requested;
                    STATUS_OK
                },
                Err(e) => {
                    proof {
                        lemma_failure_status_not_ok(Operation::Unlock, e);
                    }
                    operation_failure_status(Operation::Unlock, &e)
                },
            }
        } else {
            STATUS_IOERR_UNLOCK
        }
    }

    /// Asks the backend whether a different handle on the same file holds
    /// at least the `Reserved` level.
    pub fn check_reserved_lock<FS: VirtualFilesystem>(&self, fs: &FS) -> (r: (i32, bool))
        requires
            self.is_open(),
            fs.inv(),
        ensures
            r.0 == STATUS_OK || spec_possible_failure_status(Operation::CheckReservedLock, r.0),
            r.0 != STATUS_OK ==> r.1 == false,
    {
        match fs.check_reserved_lock(self.handle) {
            Ok(b) => (STATUS_OK, b),
            Err(e) => {
                proof {
                    lemma_failure_status_not_ok(Operation::CheckReservedLock, e);
                }
                (operation_failure_status(Operation::CheckReservedLock, &e), false)
            },
        }
    }

    /// Releases the handle and its backend capability. Closing an
    /// already-closed handle is a successful no-op that never reaches the
    /// backend; otherwise the handle is closed and unlocked whatever the
    /// backend answered, and a backend failure is still reported.
    pub fn close<FS: VirtualFilesystem>(&mut self, fs: &mut FS) -> (r: i32)
        requires
            old(fs).inv(),
        ensures
            final(fs).inv(),
            !final(self).is_open(),
            final(self).lock_level() == LockFlag::Unlocked,
            final(self).token() == old(self).token(),
            final(self).strict_order() == old(self).strict_order(),
            !old(self).is_open() ==> r == STATUS_OK,
            r == STATUS_OK || spec_possible_failure_status(Operation::Close, r),
    {
        proof {
            use_type_invariant(&*self);
        }
        if !self.open {
            STATUS_OK
        } else {
            self.lock = LockFlag::Unlocked;
            self.open = false;
            match fs.close(self.handle) {
                Ok(()) => STATUS_OK,
                Err(e) => {
                    proof {
                        lemma_failure_status_not_ok(Operation::Close, e);
                        lemma_ok_not_failure_status(Operation::Close);
                    }
                    operation_failure_status(Operation::Close, &e)
                },
            }
        }
    }
}

} // verus!
