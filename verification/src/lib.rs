//! Adapter core for plugging storage backends into an embedded relational
//! database engine through its virtual-filesystem extension protocol.
//!
//! The host engine discovers a filesystem through a fixed-layout descriptor
//! and drives it through a table of callbacks; this crate holds the verified
//! heart of that adapter: the native status-code vocabulary and the mapping
//! of backend errors onto it, the lock-level protocol, open- and access-flag
//! decoding, the instance registry, the per-handle file wrapper, and the
//! decision logic of every callback. The raw C-shaped shells that the host
//! engine actually calls live outside the verified core and delegate every
//! decision to the functions here.

pub mod codes;
pub mod errors;
pub mod file;
pub mod flags;
pub mod hyper;
pub mod lock;
pub mod memory;
pub mod registry;
pub mod trampoline;
pub mod vfs;
