//! The native integer vocabulary of the host engine's storage protocol:
//! status codes, lock levels, access-query codes, open-flag bits, and the
//! fixed descriptor parameters the adapter advertises.

use vstd::prelude::*;

verus! {

/// The call completed successfully.
pub const STATUS_OK: i32 = 0;
/// Access permission was denied.
pub const STATUS_PERM: i32 = 3;
/// Another connection holds a conflicting lock.
pub const STATUS_BUSY: i32 = 5;
/// Generic input/output failure.
pub const STATUS_IOERR: i32 = 10;
/// The requested object or operation is unknown to the backend.
pub const STATUS_NOTFOUND: i32 = 12;
/// The file could not be opened.
pub const STATUS_CANTOPEN: i32 = 14;

/// Input/output failure while reading.
pub const STATUS_IOERR_READ: i32 = 266;
/// A read returned fewer bytes than requested.
pub const STATUS_IOERR_SHORT_READ: i32 = 522;
/// Input/output failure while writing.
pub const STATUS_IOERR_WRITE: i32 = 778;
/// Input/output failure while flushing to durable storage.
pub const STATUS_IOERR_FSYNC: i32 = 1034;
/// Input/output failure while truncating.
pub const STATUS_IOERR_TRUNCATE: i32 = 1546;
/// Input/output failure while asking for the file size.
pub const STATUS_IOERR_FSTAT: i32 = 1802;
/// Input/output failure while releasing a lock.
pub const STATUS_IOERR_UNLOCK: i32 = 2058;
/// Input/output failure while taking a read lock.
pub const STATUS_IOERR_RDLOCK: i32 = 2314;
/// Input/output failure while deleting a file.
pub const STATUS_IOERR_DELETE: i32 = 2570;
/// Input/output failure while answering an access query.
pub const STATUS_IOERR_ACCESS: i32 = 3338;
/// Input/output failure while checking for a reserved lock.
pub const STATUS_IOERR_CHECKRESERVEDLOCK: i32 = 3594;
/// Input/output failure while taking a lock.
pub const STATUS_IOERR_LOCK: i32 = 3850;
/// Input/output failure while closing a handle.
pub const STATUS_IOERR_CLOSE: i32 = 4106;

/// Lock level: no lock held.
pub const LOCK_NONE: i32 = 0;
/// Lock level: shared read lock.
pub const LOCK_SHARED: i32 = 1;
/// Lock level: intent to write, still sharing reads.
pub const LOCK_RESERVED: i32 = 2;
/// Lock level: waiting for readers to drain before writing.
pub const LOCK_PENDING: i32 = 3;
/// Lock level: exclusive write lock.
pub const LOCK_EXCLUSIVE: i32 = 4;

/// Access query: does the file exist?
pub const ACCESS_EXISTS: i32 = 0;
/// Access query: may the file be read and written?
pub const ACCESS_READWRITE: i32 = 1;
/// Access query: may the file be read?
pub const ACCESS_READ: i32 = 2;

/// Open-flag bit: open read-only.
pub const OPEN_READONLY: u32 = 0x1;
/// Open-flag bit: open for reading and writing.
pub const OPEN_READWRITE: u32 = 0x2;
/// Open-flag bit: create the file if it does not exist.
pub const OPEN_CREATE: u32 = 0x4;
/// Open-flag bit: delete the file when the handle closes.
pub const OPEN_DELETEONCLOSE: u32 = 0x8;
/// Open-flag bit: fail if the file already exists.
pub const OPEN_EXCLUSIVE: u32 = 0x10;

/// Version tag of the descriptor layout the adapter populates.
pub const DESCRIPTOR_VERSION: i32 = 1;
/// Version tag of the per-file operation table the adapter populates.
pub const FILE_METHODS_VERSION: i32 = 1;
/// Longest pathname, in bytes, the adapter promises to resolve.
pub const MAX_PATHNAME: i32 = 1024;

} // verus!
