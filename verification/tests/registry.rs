use hypersqlite::errors::{RegistrationError, UnregistrationError};
use hypersqlite::registry::{Instance, Registry};

#[test]
fn mod_registers_filesystem() {
    let mut registry = Registry::new();
    let inst = Instance::new(String::from("mock-init"), 1);
    assert!(inst.register(&mut registry, false).is_ok());
    assert!(inst.registered(&registry));
}

#[test]
fn test_registers_filesystem() {
    let mut registry = Registry::new();
    let inst = Instance::new(String::from("mock-init"), 1);
    assert!(inst.register(&mut registry, false).is_ok());
    assert!(inst.registered(&registry));
}

#[test]
fn registration_visible_then_gone() {
    let mut registry = Registry::new();
    let name = String::from("memvfs");
    assert!(!registry.is_registered(&name));
    assert!(registry.register(&name, 7, false).is_ok());
    assert!(registry.is_registered(&name));
    assert!(registry.unregister(&name).is_ok());
    assert!(!registry.is_registered(&name));
}

#[test]
fn register_idempotent_same_backend() {
    let mut registry = Registry::new();
    let name = String::from("x");
    assert!(registry.register(&name, 42, false).is_ok());
    assert!(registry.register(&name, 42, false).is_ok());
    assert!(registry.is_registered(&name));
    assert_eq!(registry.backend_of(&name), Some(42));
    // one unregister clears the single entry entirely
    assert!(registry.unregister(&name).is_ok());
    assert!(!registry.is_registered(&name));
}

#[test]
fn register_collision_keeps_original() {
    let mut registry = Registry::new();
    let name = String::from("x");
    assert!(registry.register(&name, 1, false).is_ok());
    let second = registry.register(&name, 2, false);
    assert_eq!(second, Err(RegistrationError::NameCollision));
    assert!(registry.is_registered(&name));
    assert_eq!(registry.backend_of(&name), Some(1));
}

#[test]
fn unregister_absent_name() {
    let mut registry = Registry::new();
    let name = String::from("nobody");
    assert_eq!(registry.unregister(&name), Err(UnregistrationError::NotRegistered));
}

#[test]
fn unregister_fails_while_in_use() {
    let mut registry = Registry::new();
    let name = String::from("busyfs");
    assert!(registry.register(&name, 3, false).is_ok());
    assert!(registry.note_file_opened(&name));
    assert_eq!(registry.open_files(&name), 1);
    assert_eq!(registry.unregister(&name), Err(UnregistrationError::InUse));
    assert!(registry.is_registered(&name));
    assert!(registry.note_file_closed(&name));
    assert_eq!(registry.open_files(&name), 0);
    assert!(registry.unregister(&name).is_ok());
    assert!(!registry.is_registered(&name));
}

#[test]
fn make_default_tracks_registration() {
    let mut registry = Registry::new();
    let name = String::from("main");
    assert!(registry.default_filesystem().is_none());
    assert!(registry.register(&name, 9, true).is_ok());
    assert_eq!(registry.default_filesystem().map(|s| s.clone()), Some(String::from("main")));
    assert!(registry.unregister(&name).is_ok());
    assert!(registry.default_filesystem().is_none());
}

#[test]
fn instance_accessors() {
    let inst = Instance::new(String::from("named"), 11);
    assert_eq!(inst.vfs_name(), &String::from("named"));
    assert_eq!(inst.backend_token(), 11);
}

#[test]
fn two_instances_under_different_names() {
    let mut registry = Registry::new();
    let a = Instance::new(String::from("first"), 1);
    let b = Instance::new(String::from("second"), 2);
    assert!(a.register(&mut registry, false).is_ok());
    assert!(b.register(&mut registry, false).is_ok());
    assert!(a.registered(&registry));
    assert!(b.registered(&registry));
    assert!(registry.unregister(a.vfs_name()).is_ok());
    assert!(!a.registered(&registry));
    assert!(b.registered(&registry));
}
