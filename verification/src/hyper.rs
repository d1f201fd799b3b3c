//! The replicated-log-backed filesystem as the adapter models it.
//!
//! The log's own storage, key material and networking live outside the
//! verified core; what stands here is the shape the adapter drives: a
//! provider under a fixed name that accepts every request and leaves the
//! bytes to the log.

use vstd::prelude::*;
use crate::errors::{BackendError, RegistrationError};
use crate::flags::{AccessFlag, OpenFlags};
use crate::registry::Registry;

verus! {

/// A file handle of the replicated-log backend; the log's own state is
/// the backend's concern, so the adapter carries no more than the
/// identity.
pub struct HyperVirtualFile {}

/// The replicated-log-backed filesystem: it registers under its fixed
/// name and accepts every file request.
pub struct HyperVirtualFilesystem {
    fs_name: String,
}

impl HyperVirtualFilesystem {
    /// The name this filesystem registers under.
    pub closed spec fn spec_name(self) -> Seq<char> {
        self.fs_name@
    }

    /// A filesystem under the replicated-log adapter's fixed name.
    pub fn new() -> (r: HyperVirtualFilesystem)
        ensures
            r.spec_name() == "hyper-welp-okay"@,
    {
        HyperVirtualFilesystem { fs_name: "hyper-welp-okay".to_owned() }
    }

    /// The name this filesystem registers under, observably.
    pub fn get_vfs_name(&self) -> (r: &String)
        ensures
            r@ == self.spec_name(),
    {
        &self.fs_name
    }

    /// Opens a file: the log accepts every path.
    pub fn open(&self, _path: &String, _open_flags: &OpenFlags) -> (r: Result<
        HyperVirtualFile,
        BackendError,
    >)
        ensures
            r is Ok,
    {
        Ok(HyperVirtualFile {  })
    }

    /// Deletes a file: the log accepts every deletion.
    pub fn delete(&mut self, _path: &String, _sync_to_system: bool) -> (r: Result<
        (),
        BackendError,
    >)
        ensures
            r is Ok,
            *final(self) == *old(self),
    {
        Ok(())
    }

    /// Answers every access query in the affirmative.
    pub fn access(&self, _path: &String, _access_flags: &Vec<AccessFlag>) -> (r: Result<
        (),
        BackendError,
    >)
        ensures
            r is Ok,
    {
        Ok(())
    }

    /// Paths into the log are already canonical.
    pub fn full_pathname(&self, path: &String) -> (r: Result<String, BackendError>)
        ensures
            r is Ok,
            r->Ok_0@ == path@,
    {
        Ok(path.clone())
    }

    /// Registers this filesystem with the host registry under its name,
    /// carrying `backend` as its identity token: idempotent under its
    /// own token, a collision under another.
    pub fn register(&self, registry: &mut Registry, backend: u64, make_default: bool) -> (r: Result<
        (),
        RegistrationError,
    >)
        requires
            old(registry).wf(),
        ensures
            final(registry).wf(),
            r is Ok <==> (!old(registry).spec_registered(self.spec_name())
                || old(registry).spec_backend(self.spec_name()) == backend),
            r is Ok ==> final(registry).spec_registered(self.spec_name())
                && final(registry).spec_backend(self.spec_name()) == backend,
            r is Err ==> r == Err::<(), RegistrationError>(RegistrationError::NameCollision),
    {
        registry.register(&self.fs_name, backend, make_default)
    }
}

} // verus!
