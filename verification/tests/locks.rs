use hypersqlite::codes::{
    LOCK_EXCLUSIVE, LOCK_NONE, LOCK_PENDING, LOCK_RESERVED, LOCK_SHARED, STATUS_IOERR_LOCK,
    STATUS_IOERR_UNLOCK, STATUS_OK,
};
use hypersqlite::errors::BackendError;
use hypersqlite::flags::OpenFlags;
use hypersqlite::lock::LockFlag;
use hypersqlite::memory::MemFilesystem;
use hypersqlite::trampoline::vfs_open;

fn rw_create() -> OpenFlags {
    OpenFlags {
        read_only: false,
        read_write: true,
        create: true,
        delete_on_close: false,
        exclusive: false,
    }
}

#[test]
fn lock_levels_encode_and_decode() {
    assert_eq!(LockFlag::Unlocked.native_level(), LOCK_NONE);
    assert_eq!(LockFlag::Shared.native_level(), LOCK_SHARED);
    assert_eq!(LockFlag::Reserved.native_level(), LOCK_RESERVED);
    assert_eq!(LockFlag::Pending.native_level(), LOCK_PENDING);
    assert_eq!(LockFlag::Exclusive.native_level(), LOCK_EXCLUSIVE);
    for level in 0..5i32 {
        let decoded = LockFlag::from_native(level).unwrap();
        assert_eq!(decoded.native_level(), level);
    }
    assert_eq!(LockFlag::from_native(5), None);
    assert_eq!(LockFlag::from_native(-1), None);
}

#[test]
fn shared_then_exclusive_succeeds() {
    let mut fs = MemFilesystem::new(true);
    let path = String::from("locked.db");
    let (st, wrapped) = vfs_open(&mut fs, &path, 0x6);
    assert_eq!(st, STATUS_OK);
    let mut wf = wrapped.unwrap();
    assert_eq!(wf.current_lock(), LockFlag::Unlocked);
    assert_eq!(wf.lock(&mut fs, LockFlag::Shared), STATUS_OK);
    assert_eq!(wf.current_lock(), LockFlag::Shared);
    assert_eq!(wf.lock(&mut fs, LockFlag::Exclusive), STATUS_OK);
    assert_eq!(wf.current_lock(), LockFlag::Exclusive);
    assert_eq!(wf.unlock(&mut fs, LockFlag::Unlocked), STATUS_OK);
    assert_eq!(wf.current_lock(), LockFlag::Unlocked);
}

#[test]
fn strict_skip_from_unlocked_is_rejected() {
    let mut fs = MemFilesystem::new(true);
    let path = String::from("strict.db");
    let (st, wrapped) = vfs_open(&mut fs, &path, 0x6);
    assert_eq!(st, STATUS_OK);
    let mut wf = wrapped.unwrap();
    assert_eq!(wf.lock(&mut fs, LockFlag::Exclusive), STATUS_IOERR_LOCK);
    assert_eq!(wf.current_lock(), LockFlag::Unlocked);
    assert_eq!(wf.lock(&mut fs, LockFlag::Reserved), STATUS_IOERR_LOCK);
    assert_eq!(wf.current_lock(), LockFlag::Unlocked);
    // the backend itself rejects the same skip
    let h = fs.open_file(&path, &rw_create()).unwrap();
    assert_eq!(fs.lock_handle(h, LockFlag::Exclusive), Err(BackendError::Unsupported));
}

#[test]
fn relaxed_backend_allows_direct_exclusive() {
    let mut fs = MemFilesystem::new(false);
    let path = String::from("relaxed.db");
    let (st, wrapped) = vfs_open(&mut fs, &path, 0x6);
    assert_eq!(st, STATUS_OK);
    let mut wf = wrapped.unwrap();
    assert_eq!(wf.lock(&mut fs, LockFlag::Exclusive), STATUS_OK);
    assert_eq!(wf.current_lock(), LockFlag::Exclusive);
}

#[test]
fn lock_at_or_below_current_is_a_noop() {
    let mut fs = MemFilesystem::new(true);
    let path = String::from("noop.db");
    let (st, wrapped) = vfs_open(&mut fs, &path, 0x6);
    assert_eq!(st, STATUS_OK);
    let mut wf = wrapped.unwrap();
    assert_eq!(wf.lock(&mut fs, LockFlag::Shared), STATUS_OK);
    assert_eq!(wf.lock(&mut fs, LockFlag::Shared), STATUS_OK);
    assert_eq!(wf.lock(&mut fs, LockFlag::Unlocked), STATUS_OK);
    assert_eq!(wf.current_lock(), LockFlag::Shared);
}

#[test]
fn conflicting_reservation_is_busy() {
    let mut fs = MemFilesystem::new(true);
    let path = String::from("shared.db");
    let h1 = fs.open_file(&path, &rw_create()).unwrap();
    let h2 = fs.open_file(&path, &rw_create()).unwrap();
    assert_eq!(fs.lock_handle(h1, LockFlag::Shared), Ok(()));
    assert_eq!(fs.lock_handle(h2, LockFlag::Shared), Ok(()));
    assert_eq!(fs.lock_handle(h1, LockFlag::Reserved), Ok(()));
    // a second reserver on the same file is shut out
    assert_eq!(fs.lock_handle(h2, LockFlag::Reserved), Err(BackendError::Busy));
    // and an exclusive holder is shut out by the reader
    assert_eq!(fs.lock_handle(h1, LockFlag::Exclusive), Err(BackendError::Busy));
    assert_eq!(fs.unlock_handle(h2, LockFlag::Unlocked), Ok(()));
    assert_eq!(fs.lock_handle(h1, LockFlag::Exclusive), Ok(()));
}

#[test]
fn check_reserved_sees_other_handles() {
    let mut fs = MemFilesystem::new(true);
    let path = String::from("reserved.db");
    let h1 = fs.open_file(&path, &rw_create()).unwrap();
    let h2 = fs.open_file(&path, &rw_create()).unwrap();
    assert_eq!(fs.check_reserved(h2), Ok(false));
    assert_eq!(fs.lock_handle(h1, LockFlag::Shared), Ok(()));
    assert_eq!(fs.lock_handle(h1, LockFlag::Reserved), Ok(()));
    assert_eq!(fs.check_reserved(h2), Ok(true));
    // a handle's own reservation is not "another handle's"
    assert_eq!(fs.check_reserved(h1), Ok(false));
}

#[test]
fn unlock_cannot_raise_the_level() {
    let mut fs = MemFilesystem::new(true);
    let path = String::from("raise.db");
    let (st, wrapped) = vfs_open(&mut fs, &path, 0x6);
    assert_eq!(st, STATUS_OK);
    let mut wf = wrapped.unwrap();
    assert_eq!(wf.lock(&mut fs, LockFlag::Shared), STATUS_OK);
    assert_eq!(wf.unlock(&mut fs, LockFlag::Exclusive), STATUS_IOERR_UNLOCK);
    assert_eq!(wf.current_lock(), LockFlag::Shared);
    let h = fs.open_file(&path, &rw_create()).unwrap();
    assert_eq!(fs.unlock_handle(h, LockFlag::Shared), Err(BackendError::Unsupported));
}

#[test]
fn wrapper_close_is_idempotent_and_unlocks() {
    let mut fs = MemFilesystem::new(true);
    let path = String::from("closer.db");
    let (st, wrapped) = vfs_open(&mut fs, &path, 0x6);
    assert_eq!(st, STATUS_OK);
    let mut wf = wrapped.unwrap();
    assert_eq!(wf.lock(&mut fs, LockFlag::Shared), STATUS_OK);
    assert_eq!(wf.close(&mut fs), STATUS_OK);
    assert!(!wf.handle_open());
    assert_eq!(wf.current_lock(), LockFlag::Unlocked);
    assert_eq!(wf.close(&mut fs), STATUS_OK);
}
