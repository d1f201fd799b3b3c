use hypersqlite::errors::RegistrationError;
use hypersqlite::flags::{AccessFlag, OpenFlags};
use hypersqlite::hyper::HyperVirtualFilesystem;
use hypersqlite::registry::Registry;

fn plain_flags() -> OpenFlags {
    OpenFlags {
        read_only: false,
        read_write: true,
        create: true,
        delete_on_close: false,
        exclusive: false,
    }
}

#[test]
fn hyper_filesystem_has_its_fixed_name() {
    let fs = HyperVirtualFilesystem::new();
    assert_eq!(fs.get_vfs_name(), &String::from("hyper-welp-okay"));
}

#[test]
fn hyper_accepts_every_request() {
    let mut fs = HyperVirtualFilesystem::new();
    let path = String::from("anything.db");
    assert!(fs.open(&path, &plain_flags()).is_ok());
    assert!(fs.access(&path, &vec![AccessFlag::Exists, AccessFlag::ReadWrite]).is_ok());
    assert_eq!(fs.full_pathname(&path), Ok(String::from("anything.db")));
    assert!(fs.delete(&path, true).is_ok());
}

#[test]
fn hyper_registers_with_the_host_registry() {
    let mut registry = Registry::new();
    let fs = HyperVirtualFilesystem::new();
    assert!(fs.register(&mut registry, 5, false).is_ok());
    assert!(registry.is_registered(fs.get_vfs_name()));
    // registering again with the same backend token is an idempotent success
    assert!(fs.register(&mut registry, 5, false).is_ok());
    // another backend under the same name collides
    assert_eq!(fs.register(&mut registry, 6, false), Err(RegistrationError::NameCollision));
    assert_eq!(registry.backend_of(fs.get_vfs_name()), Some(5));
}
