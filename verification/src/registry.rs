//! The instance registry: the host engine's index of filesystems by name,
//! as the adapter models and drives it.
//!
//! At most one instance stands under a given name. Registering a name
//! again with the same backend is an idempotent success that changes
//! nothing; with a different backend it is a collision that also changes
//! nothing. Unregistering fails while the host engine still counts open
//! files against the instance. Queries are answered from this index
//! itself, never from a side cache.

use vstd::prelude::*;
use crate::errors::{RegistrationError, UnregistrationError};

verus! {

/// One registered filesystem: its name, its backend's identity token,
/// and how many of its files the host engine currently holds open.
struct RegistryEntry {
    name: String,
    backend: u64,
    open_files: u64,
}

/// How many entries of `s` carry the name `name`.
spec fn count_names(s: Seq<RegistryEntry>, name: Seq<char>) -> int
    decreases s.len(),
{
    if s.len() == 0 {
        0
    } else {
        count_names(s.drop_last(), name) + if s.last().name@ == name {
            1int
        } else {
            0int
        }
    }
}

/// A name is absent from `s` exactly when its count is zero.
proof fn lemma_count_zero_iff_absent(s: Seq<RegistryEntry>, name: Seq<char>)
    ensures
        count_names(s, name) == 0 <==> (forall|i: int| 0 <= i < s.len() ==> s[i].name@ != name),
        count_names(s, name) >= 0,
    decreases s.len(),
{
    if s.len() > 0 {
        lemma_count_zero_iff_absent(s.drop_last(), name);
        assert(forall|i: int| 0 <= i < s.len() - 1 ==> s[i] == s.drop_last()[i]);
    }
}

/// In a sequence of pairwise distinct names, a present name is counted
/// exactly once.
proof fn lemma_count_distinct(s: Seq<RegistryEntry>, name: Seq<char>)
    requires
        forall|i: int, j: int| 0 <= i < j < s.len() ==> s[i].name@ != s[j].name@,
    ensures
        (exists|i: int| 0 <= i < s.len() && s[i].name@ == name) ==> count_names(s, name) == 1,
        !(exists|i: int| 0 <= i < s.len() && s[i].name@ == name) ==> count_names(s, name) == 0,
    decreases s.len(),
{
    lemma_count_zero_iff_absent(s, name);
    if s.len() > 0 {
        let prefix = s.drop_last();
        assert(forall|i: int| 0 <= i < prefix.len() ==> prefix[i] == s[i]);
        lemma_count_distinct(prefix, name);
        lemma_count_zero_iff_absent(prefix, name);
        if s.last().name@ == name {
            assert(forall|i: int| 0 <= i < prefix.len() ==> prefix[i].name@ != name);
        }
    }
}

/// The host engine's registry of filesystems, keyed by name, together
/// with which instance, if any, serves unqualified paths by default.
pub struct Registry {
    entries: Vec<RegistryEntry>,
    default_name: Option<String>,
}

impl Registry {
    /// Names are pairwise distinct: the registry's standing invariant,
    /// established by `new` and kept by every operation.
    pub closed spec fn wf(self) -> bool {
        forall|i: int, j: int| 0 <= i < j < self.entries@.len() ==> self.entries@[i].name@
            != self.entries@[j].name@
    }

    /// Whether an instance of this name is registered.
    pub closed spec fn spec_registered(self, name: Seq<char>) -> bool {
        exists|i: int| 0 <= i < self.entries@.len() && self.entries@[i].name@ == name
    }

    /// The position of the name's entry.
    closed spec fn spec_index(self, name: Seq<char>) -> int {
        choose|i: int| 0 <= i < self.entries@.len() && self.entries@[i].name@ == name
    }

    /// The backend token registered under the name.
    pub closed spec fn spec_backend(self, name: Seq<char>) -> u64 {
        self.entries@[self.spec_index(name)].backend
    }

    /// How many files the host engine holds open against the name.
    pub closed spec fn spec_open_files(self, name: Seq<char>) -> u64 {
        self.entries@[self.spec_index(name)].open_files
    }

    /// How many entries carry the name; the registry keeps this at most
    /// one.
    pub closed spec fn spec_entry_count(self, name: Seq<char>) -> int {
        count_names(self.entries@, name)
    }

    /// The name serving unqualified paths, if one was made default.
    pub closed spec fn spec_default(self) -> Option<Seq<char>> {
        match self.default_name {
            Some(d) => Some(d@),
            None => None,
        }
    }

    /// A present name names exactly one entry; an absent name names none.
    /// The registry never holds two entries under one name.
    pub proof fn lemma_at_most_one_entry(self, name: Seq<char>)
        requires
            self.wf(),
        ensures
            self.spec_registered(name) ==> self.spec_entry_count(name) == 1,
            !self.spec_registered(name) ==> self.spec_entry_count(name) == 0,
    {
        lemma_count_distinct(self.entries@, name);
    }

    /// An index holding `name` is the index every name-keyed view reads.
    proof fn lemma_index_determined(self, name: Seq<char>, i: int)
        requires
            self.wf(),
            0 <= i < self.entries@.len(),
            self.entries@[i].name@ == name,
        ensures
            self.spec_registered(name),
            self.spec_index(name) == i,
            self.spec_backend(name) == self.entries@[i].backend,
            self.spec_open_files(name) == self.entries@[i].open_files,
    {
        assert(self.spec_registered(name));
        let j = self.spec_index(name);
        if i < j {
            assert(self.entries@[i].name@ != self.entries@[j].name@);
        } else if j < i {
            assert(self.entries@[j].name@ != self.entries@[i].name@);
        }
    }

    /// An empty registry: nothing registered, no default.
    pub fn new() -> (r: Registry)
        ensures
            r.wf(),
            forall|n: Seq<char>| !r.spec_registered(n),
            r.spec_default() is None,
    {
        Registry { entries: Vec::new(), default_name: None }
    }

    /// The entry's position under `name`, if one exists.
    fn find(&self, name: &String) -> (r: Option<usize>)
        ensures
            match r {
                Some(i) => i < self.entries@.len() && self.entries@[i as int].name@ == name@,
                None => !self.spec_registered(name@),
            },
    {
        let mut i: usize = 0;
        while i < self.entries.len()
            invariant
                i <= self.entries@.len(),
                forall|k: int| 0 <= k < i ==> self.entries@[k].name@ != name@,
            decreases self.entries@.len() - i,
        {
            if self.entries[i].name == *name {
                return Some(i);
            }
            i += 1;
        }
        None
    }

    /// Whether an instance of this name is registered, answered from the
    /// index itself.
    pub fn is_registered(&self, name: &String) -> (r: bool)
        ensures
            r == self.spec_registered(name@),
    {
        self.find(name).is_some()
    }

    /// Registers `backend` under `name`. Succeeds and changes no entry
    /// when the name already carries this backend; fails with
    /// `NameCollision`, changing no entry, when it carries another;
    /// otherwise inserts the name with no open files. On any success with
    /// `make_default` the name becomes the default; otherwise the default
    /// stands.
    pub fn register(&mut self, name: &String, backend: u64, make_default: bool) -> (r: Result<
        (),
        RegistrationError,
    >)
        requires
            old(self).wf(),
        ensures
            final(self).wf(),
            r is Ok <==> (!old(self).spec_registered(name@) || old(self).spec_backend(name@)
                == backend),
            r is Err ==> r == Err::<(), RegistrationError>(RegistrationError::NameCollision),
            final(self).spec_registered(name@) == (r is Ok || old(self).spec_registered(name@)),
            r is Ok ==> final(self).spec_backend(name@) == backend,
            !old(self).spec_registered(name@) && r is Ok ==> final(self).spec_open_files(name@)
                == 0,
            old(self).spec_registered(name@) ==> final(self).spec_backend(name@) == old(
                self,
            ).spec_backend(name@) && final(self).spec_open_files(name@) == old(
                self,
            ).spec_open_files(name@),
            forall|n: Seq<char>|
                n != name@ ==> #[trigger] final(self).spec_registered(n) == old(
                    self,
                ).spec_registered(n) && (old(self).spec_registered(n) ==> final(self).spec_backend(
                    n,
                ) == old(self).spec_backend(n) && final(self).spec_open_files(n) == old(
                    self,
                ).spec_open_files(n)),
            r is Ok && make_default ==> final(self).spec_default() == Some(name@),
            !(r is Ok && make_default) ==> final(self).spec_default() == old(self).spec_default(),
    {
        let found = self.find(name);
        match found {
            Some(i) => {
                proof {
                    self.lemma_index_determined(name@, i as int);
                }
                if self.entries[i].backend == backend {
                    if make_default {
                        self.default_name = Some(name.clone());
                    }
                    Ok(())
                } else {
                    Err(RegistrationError::NameCollision)
                }
            },
            None => {
                let ghost old_entries = self.entries@;
                self.entries.push(RegistryEntry { name: name.clone(), backend, open_files: 0 });
                if make_default {
                    self.default_name = Some(name.clone());
                }
                proof {
                    let entries = self.entries@;
                    assert(entries.len() == old_entries.len() + 1);
                    assert(forall|k: int|
                        0 <= k < old_entries.len() ==> entries[k] == old_entries[k]);
                    assert(forall|k: int| 0 <= k < old_entries.len() ==> entries[k].name@ != name@);
                    assert(self.wf());
                    assert(entries[old_entries.len() as int].name@ == name@);
                    self.lemma_index_determined(name@, old_entries.len() as int);
                    assert forall|n: Seq<char>|
                        n != name@ implies #[trigger] self.spec_registered(n) == old(
                        self,
                    ).spec_registered(n) && (old(self).spec_registered(n)
                        ==> self.spec_backend(n) == old(self).spec_backend(n)
                        && self.spec_open_files(n) == old(self).spec_open_files(n)) by {
                        assert(forall|k: int|
                            0 <= k < old_entries.len() ==> entries[k] == old_entries[k]);
                        if old(self).spec_registered(n) {
                            let k = choose|k: int|
                                0 <= k < old_entries.len() && old_entries[k].name@ == n;
                            assert(entries[k].name@ == n);
                            self.lemma_index_determined(n, k);
                            old(self).lemma_index_determined(n, k);
                        }
                        if self.spec_registered(n) {
                            let k = choose|k: int|
                                0 <= k < entries.len() && entries[k].name@ == n;
                            assert(k != old_entries.len());
                            assert(old_entries[k].name@ == n);
                            assert(old(self).spec_registered(n));
                        }
                    }
                }
                Ok(())
            },
        }
    }

    /// Unregisters `name`. Fails with `NotRegistered` when the name is
    /// absent and with `InUse` while files remain open against it; either
    /// failure changes nothing. On success the name is gone, every other
    /// entry stands, and the default is cleared if it named this
    /// instance.
    pub fn unregister(&mut self, name: &String) -> (r: Result<(), UnregistrationError>)
        requires
            old(self).wf(),
        ensures
            final(self).wf(),
            r is Ok <==> (old(self).spec_registered(name@) && old(self).spec_open_files(name@)
                == 0),
            !old(self).spec_registered(name@) ==> r == Err::<(), UnregistrationError>(
                UnregistrationError::NotRegistered,
            ),
            old(self).spec_registered(name@) && old(self).spec_open_files(name@) > 0 ==> r
                == Err::<(), UnregistrationError>(UnregistrationError::InUse),
            r is Err ==> *final(self) == *old(self),
            r is Ok ==> !final(self).spec_registered(name@),
            r is Ok ==> forall|n: Seq<char>|
                n != name@ ==> #[trigger] final(self).spec_registered(n) == old(
                    self,
                ).spec_registered(n) && (old(self).spec_registered(n) ==> final(self).spec_backend(
                    n,
                ) == old(self).spec_backend(n) && final(self).spec_open_files(n) == old(
                    self,
                ).spec_open_files(n)),
            r is Ok ==> final(self).spec_default() == (if old(self).spec_default() == Some(name@) {
                None
            } else {
                old(self).spec_default()
            }),
    {
        let found = self.find(name);
        match found {
            None => Err(UnregistrationError::NotRegistered),
            Some(i) => {
                proof {
                    self.lemma_index_determined(name@, i as int);
                }
                if self.entries[i].open_files > 0 {
                    Err(UnregistrationError::InUse)
                } else {
                    let ghost old_entries = self.entries@;
                    self.entries.remove(i);
                    let clear = match &self.default_name {
                        Some(d) => *d == *name,
                        None => false,
                    };
                    if clear {
                        self.default_name = None;
                    }
                    proof {
                        let entries = self.entries@;
                        assert(entries == old_entries.remove(i as int));
                        assert forall|a: int, b: int| 0 <= a < b < entries.len() implies entries[a].name@
                            != entries[b].name@ by {
                            let a0 = if a < i { a } else { a + 1 };
                            let b0 = if b < i { b } else { b + 1 };
                            assert(entries[a] == old_entries[a0]);
                            assert(entries[b] == old_entries[b0]);
                        }
                        assert(!self.spec_registered(name@)) by {
                            if self.spec_registered(name@) {
                                let k = choose|k: int|
                                    0 <= k < entries.len() && entries[k].name@ == name@;
                                let k0 = if k < i { k } else { k + 1 };
                                assert(old_entries[k0].name@ == name@);
                                assert(old_entries[i as int].name@ == name@);
                            }
                        }
                        assert forall|n: Seq<char>|
                            n != name@ implies #[trigger] self.spec_registered(n) == old(
                            self,
                        ).spec_registered(n) && (old(self).spec_registered(n)
                            ==> self.spec_backend(n) == old(self).spec_backend(n)
                            && self.spec_open_files(n) == old(self).spec_open_files(n)) by {
                            if old(self).spec_registered(n) {
                                let k0 = choose|k: int|
                                    0 <= k < old_entries.len() && old_entries[k].name@ == n;
                                assert(k0 != i);
                                let k = if k0 < i { k0 } else { k0 - 1 };
                                assert(entries[k] == old_entries[k0]);
                                self.lemma_index_determined(n, k);
                                old(self).lemma_index_determined(n, k0);
                            }
                            if self.spec_registered(n) {
                                let k = choose|k: int|
                                    0 <= k < entries.len() && entries[k].name@ == n;
                                let k0 = if k < i { k } else { k + 1 };
                                assert(entries[k] == old_entries[k0]);
                                assert(old(self).spec_registered(n));
                            }
                        }
                    }
                    Ok(())
                }
            },
        }
    }

    /// Notes one more open file against `name`; reports whether the name
    /// was registered, and changes nothing when it was not.
    pub fn note_file_opened(&mut self, name: &String) -> (r: bool)
        requires
            old(self).wf(),
            old(self).spec_registered(name@) ==> old(self).spec_open_files(name@) < u64::MAX,
        ensures
            final(self).wf(),
            r == old(self).spec_registered(name@),
            !r ==> *final(self) == *old(self),
            r ==> final(self).spec_open_files(name@) == old(self).spec_open_files(name@) + 1,
            r ==> final(self).spec_registered(name@) && final(self).spec_backend(name@) == old(
                self,
            ).spec_backend(name@),
            forall|n: Seq<char>|
                n != name@ ==> #[trigger] final(self).spec_registered(n) == old(
                    self,
                ).spec_registered(n) && (old(self).spec_registered(n) ==> final(self).spec_backend(
                    n,
                ) == old(self).spec_backend(n) && final(self).spec_open_files(n) == old(
                    self,
                ).spec_open_files(n)),
            final(self).spec_default() == old(self).spec_default(),
    {
        let found = self.find(name);
        match found {
            None => false,
            Some(i) => {
                proof {
                    self.lemma_index_determined(name@, i as int);
                }
                let ghost old_entries = self.entries@;
                let count = self.entries[i].open_files;
                let e = &mut self.entries[i];
                e.open_files = count + 1;
                proof {
                    self.lemma_note_frame(*old(self), name@, i as int);
                }
                true
            },
        }
    }

    /// Notes one fewer open file against `name`; reports whether the name
    /// was registered with at least one open file, and changes nothing
    /// otherwise.
    pub fn note_file_closed(&mut self, name: &String) -> (r: bool)
        requires
            old(self).wf(),
        ensures
            final(self).wf(),
            r == (old(self).spec_registered(name@) && old(self).spec_open_files(name@) > 0),
            !r ==> *final(self) == *old(self),
            r ==> final(self).spec_open_files(name@) == old(self).spec_open_files(name@) - 1,
            r ==> final(self).spec_registered(name@) && final(self).spec_backend(name@) == old(
                self,
            ).spec_backend(name@),
            forall|n: Seq<char>|
                n != name@ ==> #[trigger] final(self).spec_registered(n) == old(
                    self,
                ).spec_registered(n) && (old(self).spec_registered(n) ==> final(self).spec_backend(
                    n,
                ) == old(self).spec_backend(n) && final(self).spec_open_files(n) == old(
                    self,
                ).spec_open_files(n)),
            final(self).spec_default() == old(self).spec_default(),
    {
        let found = self.find(name);
        match found {
            None => false,
            Some(i) => {
                proof {
                    self.lemma_index_determined(name@, i as int);
                }
                let count = self.entries[i].open_files;
                if count == 0 {
                    false
                } else {
                    let e = &mut self.entries[i];
                    e.open_files = count - 1;
                    proof {
                        self.lemma_note_frame(*old(self), name@, i as int);
                    }
                    true
                }
            },
        }
    }

    /// How many files the host engine holds open against `name`; zero
    /// when the name is not registered.
    pub fn open_files(&self, name: &String) -> (r: u64)
        requires
            self.wf(),
        ensures
            self.spec_registered(name@) ==> r == self.spec_open_files(name@),
            !self.spec_registered(name@) ==> r == 0,
    {
        let found = self.find(name);
        match found {
            None => 0,
            Some(i) => {
                proof {
                    self.lemma_index_determined(name@, i as int);
                }
                self.entries[i].open_files
            },
        }
    }

    /// The backend token registered under `name`, observably.
    pub fn backend_of(&self, name: &String) -> (r: Option<u64>)
        requires
            self.wf(),
        ensures
            r is Some <==> self.spec_registered(name@),
            r is Some ==> r->0 == self.spec_backend(name@),
    {
        let found = self.find(name);
        match found {
            None => None,
            Some(i) => {
                proof {
                    self.lemma_index_determined(name@, i as int);
                }
                Some(self.entries[i].backend)
            },
        }
    }

    /// The default filesystem's name, observably.
    pub fn default_filesystem(&self) -> (r: Option<&String>)
        ensures
            r is Some <==> self.spec_default() is Some,
            r is Some ==> Some(r->0@) == self.spec_default(),
    {
        match &self.default_name {
            Some(d) => Some(d),
            None => None,
        }
    }

    /// After an in-place change of entry `i`'s open-file count, every
    /// name still names the entry it did, and every other entry stands
    /// whole.
    proof fn lemma_note_frame(self, pre: Registry, name: Seq<char>, i: int)
        requires
            pre.wf(),
            self.wf(),
            0 <= i < pre.entries@.len(),
            pre.entries@[i].name@ == name,
            self.entries@.len() == pre.entries@.len(),
            forall|k: int| 0 <= k < pre.entries@.len() && k != i ==> self.entries@[k]
                == pre.entries@[k],
            self.entries@[i].name@ == name,
            self.entries@[i].backend == pre.entries@[i].backend,
            self.default_name == pre.default_name,
        ensures
            self.spec_registered(name) && pre.spec_registered(name),
            self.spec_backend(name) == pre.spec_backend(name),
            forall|n: Seq<char>|
                n != name ==> #[trigger] self.spec_registered(n) == pre.spec_registered(n) && (
                pre.spec_registered(n) ==> self.spec_backend(n) == pre.spec_backend(n)
                    && self.spec_open_files(n) == pre.spec_open_files(n)),
            self.spec_default() == pre.spec_default(),
            self.spec_open_files(name) == self.entries@[i].open_files,
    {
        self.lemma_index_determined(name, i);
        pre.lemma_index_determined(name, i);
        assert forall|n: Seq<char>|
            n != name implies #[trigger] self.spec_registered(n) == pre.spec_registered(n) && (
        pre.spec_registered(n) ==> self.spec_backend(n) == pre.spec_backend(n)
            && self.spec_open_files(n) == pre.spec_open_files(n)) by {
            if pre.spec_registered(n) {
                let k = choose|k: int|
                    0 <= k < pre.entries@.len() && pre.entries@[k].name@ == n;
                assert(k != i);
                assert(self.entries@[k] == pre.entries@[k]);
                self.lemma_index_determined(n, k);
                pre.lemma_index_determined(n, k);
            }
            if self.spec_registered(n) {
                let k = choose|k: int|
                    0 <= k < self.entries@.len() && self.entries@[k].name@ == n;
                assert(k != i);
                assert(self.entries@[k] == pre.entries@[k]);
                assert(pre.spec_registered(n));
            }
        }
    }
}

/// One named filesystem instance: the name it registers under and the
/// identity token of the backend it owns. Registration state is never
/// cached here; it is asked of the registry every time.
pub struct Instance {
    vfs_name: String,
    backend: u64,
}

impl Instance {
    /// The instance's name.
    pub closed spec fn spec_name(self) -> Seq<char> {
        self.vfs_name@
    }

    /// The identity token of the backend the instance owns.
    pub closed spec fn spec_backend(self) -> u64 {
        self.backend
    }

    /// An instance that will register `backend` under `vfs_name`.
    pub fn new(vfs_name: String, backend: u64) -> (r: Instance)
        ensures
            r.spec_name() == vfs_name@,
            r.spec_backend() == backend,
    {
        Instance { vfs_name, backend }
    }

    /// The name of the instance.
    pub fn vfs_name(&self) -> (r: &String)
        ensures
            r@ == self.spec_name(),
    {
        &self.vfs_name
    }

    /// The backend identity token.
    pub fn backend_token(&self) -> (r: u64)
        ensures
            r == self.spec_backend(),
    {
        self.backend
    }

    /// Registers this instance with the host registry: idempotent under
    /// its own backend, a collision under another.
    pub fn register(&self, registry: &mut Registry, make_default: bool) -> (r: Result<
        (),
        RegistrationError,
    >)
        requires
            old(registry).wf(),
        ensures
            final(registry).wf(),
            r is Ok <==> (!old(registry).spec_registered(self.spec_name())
                || old(registry).spec_backend(self.spec_name()) == self.spec_backend()),
            r is Err ==> r == Err::<(), RegistrationError>(RegistrationError::NameCollision),
            r is Ok ==> final(registry).spec_registered(self.spec_name())
                && final(registry).spec_backend(self.spec_name()) == self.spec_backend(),
            old(registry).spec_registered(self.spec_name())
                ==> final(registry).spec_backend(self.spec_name())
                == old(registry).spec_backend(self.spec_name()),
    {
        registry.register(&self.vfs_name, self.backend, make_default)
    }

    /// Whether this instance is currently registered, asked of the host
    /// registry itself.
    pub fn registered(&self, registry: &Registry) -> (r: bool)
        ensures
            r == registry.spec_registered(self.spec_name()),
    {
        registry.is_registered(&self.vfs_name)
    }
}

} // verus!
