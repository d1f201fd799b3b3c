use hypersqlite::codes::{
    STATUS_CANTOPEN, STATUS_IOERR_ACCESS, STATUS_IOERR_SHORT_READ, STATUS_OK, STATUS_PERM,
};
use hypersqlite::errors::{BackendError, ProtocolError};
use hypersqlite::memory::MemFilesystem;
use hypersqlite::trampoline::{
    access_outcome, current_time_millis, full_pathname_decision, instance_guard,
    last_error_report, vfs_access, vfs_delete, vfs_full_pathname, vfs_open,
    EPOCH_TO_DAY_ZERO_MILLIS,
};

#[test]
fn guard_checks_instance_and_version() {
    assert_eq!(instance_guard(true, 1), Ok(()));
    assert_eq!(instance_guard(false, 1), Err(ProtocolError::MissingInstance));
    assert_eq!(instance_guard(true, 2), Err(ProtocolError::VersionMismatch));
    assert_eq!(instance_guard(false, 2), Err(ProtocolError::MissingInstance));
}

#[test]
fn open_missing_file_maps_to_cantopen() {
    let mut fs = MemFilesystem::new(true);
    let path = String::from("nothing.db");
    // read-write without create
    let (st, wrapped) = vfs_open(&mut fs, &path, 0x2);
    assert_eq!(st, STATUS_CANTOPEN);
    assert!(wrapped.is_none());
    // with create the open succeeds and hands back an open wrapper
    let (st2, wrapped2) = vfs_open(&mut fs, &path, 0x6);
    assert_eq!(st2, STATUS_OK);
    assert!(wrapped2.unwrap().handle_open());
}

#[test]
fn wrapper_read_reports_short_read_status() {
    let mut fs = MemFilesystem::new(true);
    let path = String::from("short.db");
    let (st, wrapped) = vfs_open(&mut fs, &path, 0x6);
    assert_eq!(st, STATUS_OK);
    let wf = wrapped.unwrap();
    let (wst, accepted) = wf.write(&mut fs, &vec![5u8, 6, 7], 0);
    assert_eq!((wst, accepted), (STATUS_OK, 3));
    let (rst, bytes) = wf.read(&fs, 3, 0);
    assert_eq!(rst, STATUS_OK);
    assert_eq!(bytes, vec![5u8, 6, 7]);
    // eight bytes asked, three exist: short-read status and exactly three
    let (sst, sbytes) = wf.read(&fs, 8, 0);
    assert_eq!(sst, STATUS_IOERR_SHORT_READ);
    assert_eq!(sbytes, vec![5u8, 6, 7]);
}

#[test]
fn wrapper_write_on_read_only_maps_to_perm() {
    let mut fs = MemFilesystem::new(true);
    let path = String::from("sealed.db");
    let (st, wrapped) = vfs_open(&mut fs, &path, 0x6);
    assert_eq!(st, STATUS_OK);
    let mut wf = wrapped.unwrap();
    let (wst, _) = wf.write(&mut fs, &vec![1u8], 0);
    assert_eq!(wst, STATUS_OK);
    assert_eq!(wf.close(&mut fs), STATUS_OK);
    let (st2, wrapped2) = vfs_open(&mut fs, &path, 0x1);
    assert_eq!(st2, STATUS_OK);
    let wf2 = wrapped2.unwrap();
    let (pst, accepted) = wf2.write(&mut fs, &vec![9u8], 0);
    assert_eq!(pst, STATUS_PERM);
    assert_eq!(accepted, 0);
}

#[test]
fn wrapper_size_propagates_errors() {
    let mut fs = MemFilesystem::new(true);
    let path = String::from("sized.db");
    let (st, wrapped) = vfs_open(&mut fs, &path, 0x6);
    assert_eq!(st, STATUS_OK);
    let mut wf = wrapped.unwrap();
    let (wst, _) = wf.write(&mut fs, &vec![0u8; 42], 0);
    assert_eq!(wst, STATUS_OK);
    assert_eq!(wf.size(&fs), (STATUS_OK, 42));
    // deleting the file under the handle turns size into an error, not zero
    assert_eq!(vfs_delete(&mut fs, &path, false), STATUS_OK);
    let (est, len) = wf.size(&fs);
    assert_eq!(est, STATUS_CANTOPEN);
    assert_eq!(len, 0);
    assert_eq!(wf.close(&mut fs), STATUS_OK);
}

#[test]
fn delete_missing_maps_to_cantopen() {
    let mut fs = MemFilesystem::new(true);
    let path = String::from("void.db");
    assert_eq!(vfs_delete(&mut fs, &path, true), STATUS_CANTOPEN);
}

#[test]
fn access_answers_exists_queries() {
    let mut fs = MemFilesystem::new(true);
    let path = String::from("asked.db");
    assert_eq!(vfs_access(&fs, &path, 0), (STATUS_OK, 0));
    let (st, wrapped) = vfs_open(&mut fs, &path, 0x6);
    assert_eq!(st, STATUS_OK);
    assert!(wrapped.is_some());
    assert_eq!(vfs_access(&fs, &path, 0), (STATUS_OK, 1));
    assert_eq!(vfs_access(&fs, &path, 1), (STATUS_OK, 1));
    assert_eq!(vfs_access(&fs, &path, 2), (STATUS_OK, 1));
    // an unknown query code is the access-check failure
    assert_eq!(vfs_access(&fs, &path, 9), (STATUS_IOERR_ACCESS, 0));
}

#[test]
fn access_outcome_cases() {
    assert_eq!(access_outcome(Ok(())), (STATUS_OK, 1));
    assert_eq!(access_outcome(Err(BackendError::NotFound)), (STATUS_OK, 0));
    let (st, out) = access_outcome(Err(BackendError::PermissionDenied));
    assert_eq!((st, out), (STATUS_PERM, 0));
}

#[test]
fn full_pathname_falls_back_to_the_input() {
    let path = String::from("plain.db");
    let (st, resolved) = full_pathname_decision(&path, 512, Err(BackendError::IOFailure));
    assert_eq!(st, STATUS_OK);
    assert_eq!(resolved, Some(String::from("plain.db")));
    let (st2, resolved2) =
        full_pathname_decision(&path, 512, Ok(String::from("/canonical/plain.db")));
    assert_eq!(st2, STATUS_OK);
    assert_eq!(resolved2, Some(String::from("/canonical/plain.db")));
    // a buffer too small for the path cannot be served at all
    let (st3, resolved3) = full_pathname_decision(&path, 4, Err(BackendError::IOFailure));
    assert_eq!(st3, STATUS_CANTOPEN);
    assert_eq!(resolved3, None);
}

#[test]
fn full_pathname_through_the_memory_backend() {
    let fs = MemFilesystem::new(true);
    let path = String::from("kept.db");
    let (st, resolved) = vfs_full_pathname(&fs, &path, 1024);
    assert_eq!(st, STATUS_OK);
    assert_eq!(resolved, Some(String::from("kept.db")));
}

#[test]
fn last_error_report_always_succeeds() {
    let (st, msg) = last_error_report(Some(String::from("disk on fire")));
    assert_eq!(st, STATUS_OK);
    assert_eq!(msg, String::from("disk on fire"));
    let (st2, msg2) = last_error_report(None);
    assert_eq!(st2, STATUS_OK);
    assert_eq!(msg2, String::from("unknown storage error: no message provided"));
}

#[test]
fn current_time_carries_the_fixed_offset() {
    assert_eq!(current_time_millis(0), Some(EPOCH_TO_DAY_ZERO_MILLIS));
    assert_eq!(current_time_millis(1_000), Some(EPOCH_TO_DAY_ZERO_MILLIS + 1_000));
    assert_eq!(current_time_millis(i64::MAX), None);
}
