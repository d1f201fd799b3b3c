//! The backend capability interface: the contract a concrete storage
//! provider presents to the adapter.
//!
//! A provider owns every file it serves; an open file is named by a handle
//! token the provider issued, and every per-file operation is keyed by that
//! token. The contracts here are the promises every provider must keep;
//! they deliberately leave open what a particular provider stores.

use vstd::prelude::*;
use crate::errors::BackendError;
use crate::flags::{AccessFlag, OpenFlags};
use crate::lock::LockFlag;

verus! {

/// A storage provider, as the adapter consumes it.
pub trait VirtualFilesystem: Sized {
    /// The provider's own well-formedness, which every operation keeps.
    spec fn inv(&self) -> bool;

    /// Whether the provider demands that a lock upgrade from `Unlocked`
    /// pass through `Shared` before going higher.
    spec fn strict_lock_order(&self) -> bool;

    /// Reports the provider's lock-ordering demand.
    fn strict_locking(&self) -> (r: bool)
        ensures
            r == self.strict_lock_order(),
    ;

    /// Opens `path`, honouring the structured open flags, and issues a
    /// handle token for the file.
    fn open(&mut self, path: &String, flags: &OpenFlags) -> (r: Result<usize, BackendError>)
        requires
            old(self).inv(),
        ensures
            final(self).inv(),
    ;

    /// Removes `path`; `sync_to_system` asks that the removal be durable
    /// before the call returns.
    fn delete(&mut self, path: &String, sync_to_system: bool) -> (r: Result<(), BackendError>)
        requires
            old(self).inv(),
        ensures
            final(self).inv(),
    ;

    /// Answers an access query: success means every queried kind of access
    /// is available, `NotFound` that it is not.
    fn access(&self, path: &String, flags: &Vec<AccessFlag>) -> (r: Result<(), BackendError>)
        requires
            self.inv(),
    ;

    /// Resolves `path` to its canonical form.
    fn full_pathname(&self, path: &String) -> (r: Result<String, BackendError>)
        requires
            self.inv(),
    ;

    /// Reads up to `amount` bytes at `offset`; fewer come back only when
    /// the file ends before `offset + amount`.
    fn read(&self, handle: usize, amount: usize, offset: u64) -> (r: Result<Vec<u8>, BackendError>)
        requires
            self.inv(),
        ensures
            r is Ok ==> r->Ok_0@.len() <= amount,
    ;

    /// Writes `data` at `offset` and reports how many bytes were accepted.
    fn write(&mut self, handle: usize, data: &Vec<u8>, offset: u64) -> (r: Result<
        usize,
        BackendError,
    >)
        requires
            old(self).inv(),
        ensures
            final(self).inv(),
            r is Ok ==> r->Ok_0 <= data@.len(),
    ;

    /// Shortens the file to at most `length` bytes.
    fn truncate(&mut self, handle: usize, length: u64) -> (r: Result<(), BackendError>)
        requires
            old(self).inv(),
        ensures
            final(self).inv(),
    ;

    /// Flushes the file to durable storage.
    fn sync(&mut self, handle: usize, flags: i32) -> (r: Result<(), BackendError>)
        requires
            old(self).inv(),
        ensures
            final(self).inv(),
    ;

    /// The file's current size in bytes.
    fn size(&self, handle: usize) -> (r: Result<u64, BackendError>)
        requires
            self.inv(),
    ;

    /// Acquires `level` on the handle.
    fn lock(&mut self, handle: usize, level: LockFlag) -> (r: Result<(), BackendError>)
        requires
            old(self).inv(),
        ensures
            final(self).inv(),
    ;

    /// Lowers the handle's lock to `level`.
    fn unlock(&mut self, handle: usize, level: LockFlag) -> (r: Result<(), BackendError>)
        requires
            old(self).inv(),
        ensures
            final(self).inv(),
    ;

    /// Whether a different handle on the same file holds at least the
    /// `Reserved` level.
    fn check_reserved_lock(&self, handle: usize) -> (r: Result<bool, BackendError>)
        requires
            self.inv(),
    ;

    /// Releases the handle.
    fn close(&mut self, handle: usize) -> (r: Result<(), BackendError>)
        requires
            old(self).inv(),
        ensures
            final(self).inv(),
    ;

    /// The natural write granularity of the underlying storage, in bytes.
    fn sector_size(&self) -> (r: i32);

    /// The provider's input/output characteristic codes.
    fn device_characteristics(&self) -> (r: Vec<i32>);
}

} // verus!
