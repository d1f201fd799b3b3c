use hypersqlite::codes::{
    ACCESS_EXISTS, ACCESS_READ, ACCESS_READWRITE, STATUS_BUSY, STATUS_CANTOPEN, STATUS_IOERR,
    STATUS_IOERR_ACCESS, STATUS_IOERR_CHECKRESERVEDLOCK, STATUS_IOERR_CLOSE, STATUS_IOERR_DELETE,
    STATUS_IOERR_FSTAT, STATUS_IOERR_FSYNC, STATUS_IOERR_LOCK, STATUS_IOERR_READ,
    STATUS_IOERR_TRUNCATE, STATUS_IOERR_UNLOCK, STATUS_IOERR_WRITE, STATUS_NOTFOUND, STATUS_PERM,
};
use hypersqlite::errors::{
    backend_error_status, operation_failure_status, protocol_error_status, BackendError,
    Operation, ProtocolError,
};
use hypersqlite::flags::{decode_open_flags, AccessFlag, OpenFlags};

#[test]
fn backend_error_table_is_exhaustive_and_distinct() {
    let cases = [
        (BackendError::NotFound, STATUS_CANTOPEN),
        (BackendError::PermissionDenied, STATUS_PERM),
        (BackendError::IOFailure, STATUS_IOERR),
        (BackendError::Busy, STATUS_BUSY),
        (BackendError::Unsupported, STATUS_NOTFOUND),
    ];
    for (err, expected) in cases.iter() {
        assert_eq!(backend_error_status(err), *expected);
    }
    for (i, (ei, _)) in cases.iter().enumerate() {
        for (j, (ej, _)) in cases.iter().enumerate() {
            if i != j {
                assert_ne!(backend_error_status(ei), backend_error_status(ej));
            }
        }
    }
}

#[test]
fn backend_error_mapping_is_stable() {
    for err in [
        BackendError::NotFound,
        BackendError::PermissionDenied,
        BackendError::IOFailure,
        BackendError::Busy,
        BackendError::Unsupported,
    ] {
        assert_eq!(backend_error_status(&err), backend_error_status(&err));
    }
}

#[test]
fn io_failure_refines_to_the_operation() {
    let cases = [
        (Operation::Open, STATUS_CANTOPEN),
        (Operation::Delete, STATUS_IOERR_DELETE),
        (Operation::Access, STATUS_IOERR_ACCESS),
        (Operation::FullPathname, STATUS_IOERR),
        (Operation::Read, STATUS_IOERR_READ),
        (Operation::Write, STATUS_IOERR_WRITE),
        (Operation::Truncate, STATUS_IOERR_TRUNCATE),
        (Operation::Sync, STATUS_IOERR_FSYNC),
        (Operation::Size, STATUS_IOERR_FSTAT),
        (Operation::Lock, STATUS_IOERR_LOCK),
        (Operation::Unlock, STATUS_IOERR_UNLOCK),
        (Operation::CheckReservedLock, STATUS_IOERR_CHECKRESERVEDLOCK),
        (Operation::Close, STATUS_IOERR_CLOSE),
    ];
    for (op, expected) in cases.iter() {
        assert_eq!(operation_failure_status(*op, &BackendError::IOFailure), *expected);
        // other backend errors keep their place in the fixed table
        assert_eq!(operation_failure_status(*op, &BackendError::Busy), STATUS_BUSY);
    }
}

#[test]
fn protocol_errors_become_generic_io_failure() {
    assert_eq!(protocol_error_status(&ProtocolError::MissingInstance), STATUS_IOERR);
    assert_eq!(protocol_error_status(&ProtocolError::VersionMismatch), STATUS_IOERR);
}

#[test]
fn open_flag_bits_decode() {
    let f = decode_open_flags(0x6);
    assert!(f.read_write && f.create);
    assert!(!f.read_only && !f.delete_on_close && !f.exclusive);
    let g = decode_open_flags(0x19);
    assert!(g.read_only && g.delete_on_close && g.exclusive);
    assert!(!g.read_write && !g.create);
    assert_eq!(
        decode_open_flags(0),
        OpenFlags {
            read_only: false,
            read_write: false,
            create: false,
            delete_on_close: false,
            exclusive: false,
        }
    );
    // unknown bits are dropped
    assert_eq!(decode_open_flags(0x40000), decode_open_flags(0));
}

#[test]
fn open_flags_encode_round_trip() {
    let f = OpenFlags {
        read_only: false,
        read_write: true,
        create: true,
        delete_on_close: true,
        exclusive: false,
    };
    assert_eq!(decode_open_flags(f.native_bits()), f);
    assert_eq!(f.native_bits(), 0xe);
}

#[test]
fn access_flags_encode_and_decode() {
    assert_eq!(AccessFlag::Exists.native_code(), ACCESS_EXISTS);
    assert_eq!(AccessFlag::ReadOnly.native_code(), ACCESS_READ);
    assert_eq!(AccessFlag::ReadWrite.native_code(), ACCESS_READWRITE);
    assert_eq!(AccessFlag::from_native(0), Some(AccessFlag::Exists));
    assert_eq!(AccessFlag::from_native(1), Some(AccessFlag::ReadWrite));
    assert_eq!(AccessFlag::from_native(2), Some(AccessFlag::ReadOnly));
    assert_eq!(AccessFlag::from_native(3), None);
}
