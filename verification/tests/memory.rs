use hypersqlite::errors::BackendError;
use hypersqlite::flags::AccessFlag;
use hypersqlite::flags::OpenFlags;
use hypersqlite::memory::MemFilesystem;

fn rw_create() -> OpenFlags {
    OpenFlags {
        read_only: false,
        read_write: true,
        create: true,
        delete_on_close: false,
        exclusive: false,
    }
}

fn rw_plain() -> OpenFlags {
    OpenFlags {
        read_only: false,
        read_write: true,
        create: false,
        delete_on_close: false,
        exclusive: false,
    }
}

fn ro_plain() -> OpenFlags {
    OpenFlags {
        read_only: true,
        read_write: false,
        create: false,
        delete_on_close: false,
        exclusive: false,
    }
}

#[test]
fn write_close_reopen_read_round_trip() {
    let mut fs = MemFilesystem::new(true);
    let path = String::from("f");
    let h = fs.open_file(&path, &rw_create()).unwrap();
    let data = vec![10u8, 20, 30, 40, 50];
    assert_eq!(fs.write_at(h, &data, 0), Ok(5));
    assert!(fs.close_handle(h).is_ok());
    let h2 = fs.open_file(&path, &rw_plain()).unwrap();
    assert_eq!(fs.read_at(h2, 5, 0), Ok(vec![10u8, 20, 30, 40, 50]));
    assert!(fs.close_handle(h2).is_ok());
}

#[test]
fn short_read_returns_exact_remainder() {
    let mut fs = MemFilesystem::new(true);
    let path = String::from("short");
    let h = fs.open_file(&path, &rw_create()).unwrap();
    assert_eq!(fs.write_at(h, &vec![1u8, 2, 3], 0), Ok(3));
    // ten bytes requested, only two remain past offset 1
    assert_eq!(fs.read_at(h, 10, 1), Ok(vec![2u8, 3]));
    // nothing remains past the end
    assert_eq!(fs.read_at(h, 4, 9), Ok(vec![]));
}

#[test]
fn write_beyond_end_zero_fills_gap() {
    let mut fs = MemFilesystem::new(true);
    let path = String::from("gap");
    let h = fs.open_file(&path, &rw_create()).unwrap();
    assert_eq!(fs.write_at(h, &vec![9u8], 3), Ok(1));
    assert_eq!(fs.read_at(h, 4, 0), Ok(vec![0u8, 0, 0, 9]));
    assert_eq!(fs.file_size(h), Ok(4));
}

#[test]
fn overwrite_keeps_other_bytes() {
    let mut fs = MemFilesystem::new(true);
    let path = String::from("mid");
    let h = fs.open_file(&path, &rw_create()).unwrap();
    assert_eq!(fs.write_at(h, &vec![1u8, 2, 3, 4, 5], 0), Ok(5));
    assert_eq!(fs.write_at(h, &vec![8u8, 9], 1), Ok(2));
    assert_eq!(fs.read_at(h, 5, 0), Ok(vec![1u8, 8, 9, 4, 5]));
}

#[test]
fn open_missing_without_create_fails() {
    let mut fs = MemFilesystem::new(true);
    let path = String::from("absent");
    assert_eq!(fs.open_file(&path, &rw_plain()), Err(BackendError::NotFound));
}

#[test]
fn open_exclusive_create_on_existing_fails() {
    let mut fs = MemFilesystem::new(true);
    let path = String::from("already");
    let h = fs.open_file(&path, &rw_create()).unwrap();
    assert!(fs.close_handle(h).is_ok());
    let mut excl = rw_create();
    excl.exclusive = true;
    assert_eq!(fs.open_file(&path, &excl), Err(BackendError::PermissionDenied));
}

#[test]
fn read_only_handle_refuses_writes() {
    let mut fs = MemFilesystem::new(true);
    let path = String::from("ro");
    let h = fs.open_file(&path, &rw_create()).unwrap();
    assert_eq!(fs.write_at(h, &vec![1u8, 2], 0), Ok(2));
    assert!(fs.close_handle(h).is_ok());
    let h2 = fs.open_file(&path, &ro_plain()).unwrap();
    assert_eq!(fs.write_at(h2, &vec![3u8], 0), Err(BackendError::PermissionDenied));
    assert_eq!(fs.truncate_file(h2, 0), Err(BackendError::PermissionDenied));
    assert_eq!(fs.read_at(h2, 2, 0), Ok(vec![1u8, 2]));
}

#[test]
fn stale_handle_fails_with_io_error() {
    let mut fs = MemFilesystem::new(true);
    let path = String::from("stale");
    let h = fs.open_file(&path, &rw_create()).unwrap();
    assert!(fs.close_handle(h).is_ok());
    assert_eq!(fs.read_at(h, 1, 0), Err(BackendError::IOFailure));
    assert_eq!(fs.write_at(h, &vec![1u8], 0), Err(BackendError::IOFailure));
    assert_eq!(fs.file_size(h), Err(BackendError::IOFailure));
    // a token never issued fails too
    assert_eq!(fs.read_at(99, 1, 0), Err(BackendError::IOFailure));
}

#[test]
fn truncate_cuts_and_size_reports() {
    let mut fs = MemFilesystem::new(true);
    let path = String::from("cut");
    let h = fs.open_file(&path, &rw_create()).unwrap();
    assert_eq!(fs.write_at(h, &vec![1u8, 2, 3, 4, 5, 6], 0), Ok(6));
    assert_eq!(fs.file_size(h), Ok(6));
    assert_eq!(fs.truncate_file(h, 2), Ok(()));
    assert_eq!(fs.file_size(h), Ok(2));
    assert_eq!(fs.read_at(h, 6, 0), Ok(vec![1u8, 2]));
    // truncating to more than the length changes nothing
    assert_eq!(fs.truncate_file(h, 100), Ok(()));
    assert_eq!(fs.file_size(h), Ok(2));
}

#[test]
fn sync_succeeds_on_open_handle() {
    let mut fs = MemFilesystem::new(true);
    let path = String::from("synced");
    let h = fs.open_file(&path, &rw_create()).unwrap();
    assert_eq!(fs.sync_file(h, 0), Ok(()));
    assert!(fs.close_handle(h).is_ok());
    assert_eq!(fs.sync_file(h, 0), Err(BackendError::IOFailure));
}

#[test]
fn close_is_idempotent() {
    let mut fs = MemFilesystem::new(true);
    let path = String::from("twice");
    let h = fs.open_file(&path, &rw_create()).unwrap();
    assert_eq!(fs.close_handle(h), Ok(()));
    assert_eq!(fs.close_handle(h), Ok(()));
}

#[test]
fn delete_removes_and_reports_missing() {
    let mut fs = MemFilesystem::new(true);
    let path = String::from("gone");
    let h = fs.open_file(&path, &rw_create()).unwrap();
    assert!(fs.close_handle(h).is_ok());
    assert_eq!(fs.delete_file(&path, true), Ok(()));
    assert_eq!(fs.delete_file(&path, true), Err(BackendError::NotFound));
    assert_eq!(fs.open_file(&path, &rw_plain()), Err(BackendError::NotFound));
}

#[test]
fn distinct_paths_do_not_interfere() {
    let mut fs = MemFilesystem::new(true);
    let pa = String::from("a.db");
    let pb = String::from("b.db");
    let ha = fs.open_file(&pa, &rw_create()).unwrap();
    let hb = fs.open_file(&pb, &rw_create()).unwrap();
    assert_eq!(fs.write_at(ha, &vec![1u8, 1, 1], 0), Ok(3));
    assert_eq!(fs.write_at(hb, &vec![2u8, 2], 0), Ok(2));
    assert_eq!(fs.write_at(ha, &vec![7u8], 1), Ok(1));
    assert_eq!(fs.read_at(hb, 2, 0), Ok(vec![2u8, 2]));
    assert_eq!(fs.close_handle(ha), Ok(()));
    // closing one handle leaves the other fully usable
    assert_eq!(fs.read_at(hb, 2, 0), Ok(vec![2u8, 2]));
    assert_eq!(fs.read_at(ha, 1, 0), Err(BackendError::IOFailure));
    assert_eq!(fs.close_handle(hb), Ok(()));
}

#[test]
fn access_reports_existence() {
    let mut fs = MemFilesystem::new(true);
    let path = String::from("seen");
    assert_eq!(fs.access_file(&path, &vec![AccessFlag::Exists]), Err(BackendError::NotFound));
    // an empty query asks nothing and succeeds
    assert_eq!(fs.access_file(&path, &vec![]), Ok(()));
    let h = fs.open_file(&path, &rw_create()).unwrap();
    assert!(fs.close_handle(h).is_ok());
    assert_eq!(fs.access_file(&path, &vec![AccessFlag::Exists]), Ok(()));
    assert_eq!(fs.access_file(&path, &vec![AccessFlag::ReadWrite]), Ok(()));
}

#[test]
fn resolve_path_is_identity() {
    let fs = MemFilesystem::new(true);
    let path = String::from("dir/leaf.db");
    assert_eq!(fs.resolve_path(&path), Ok(String::from("dir/leaf.db")));
}
