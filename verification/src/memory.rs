//! An in-memory storage provider: the library's own reference backend.
//!
//! It owns every file it serves and every handle it issued, so the whole
//! storage protocol — open flags, byte-exact reads and writes, zero-filled
//! gaps, truncation, the lock table across handles on one file — is pinned
//! down here, value for value.

use vstd::prelude::*;
use crate::errors::BackendError;
use crate::flags::{AccessFlag, OpenFlags};
use crate::lock::{
    lock_compatible, lock_request_decision, spec_lock_compatible, spec_lock_le,
    spec_lock_rank, spec_lock_request_ok, LockDecision, LockFlag,
};
use crate::vfs::VirtualFilesystem;

verus! {

/// The larger of two lengths.
pub open spec fn spec_max2(a: int, b: int) -> int {
    if a >= b {
        a
    } else {
        b
    }
}

/// The bytes a read at `off` for `amount` returns from `content`: the
/// slice that is there, empty once the offset passes the end.
pub open spec fn spec_read_slice(content: Seq<u8>, off: nat, amount: nat) -> Seq<u8> {
    if off >= content.len() {
        Seq::empty()
    } else if off + amount <= content.len() {
        content.subrange(off as int, (off + amount) as int)
    } else {
        content.subrange(off as int, content.len() as int)
    }
}

/// The content after writing `data` at `off`: any gap between the old end
/// and `off` is zero-filled, the written range carries `data`, and bytes
/// outside it keep their old values.
pub open spec fn spec_write_effect(content: Seq<u8>, off: nat, data: Seq<u8>) -> Seq<u8> {
    Seq::new(
        spec_max2(content.len() as int, (off + data.len()) as int) as nat,
        |i: int|
            if off <= i < off + data.len() {
                data[i - off]
            } else if i < content.len() {
                content[i]
            } else {
                0u8
            },
    )
}

/// The content after truncating to `len`: unchanged when already short
/// enough, else cut to the first `len` bytes.
pub open spec fn spec_truncate_effect(content: Seq<u8>, len: nat) -> Seq<u8> {
    if len >= content.len() {
        content
    } else {
        content.take(len as int)
    }
}

/// What a write puts down, a read at the same offset gives back whole:
/// reading `data.len()` bytes at `off` from the written content returns
/// exactly `data`, whatever was there before.
pub proof fn lemma_write_read_round_trip(content: Seq<u8>, off: nat, data: Seq<u8>)
    ensures
        spec_read_slice(spec_write_effect(content, off, data), off, data.len()) == data,
{
    let w = spec_write_effect(content, off, data);
    if data.len() == 0 {
        assert(spec_read_slice(w, off, 0) =~= data);
    } else {
        assert(off + data.len() <= w.len());
        assert(spec_read_slice(w, off, data.len()) =~= data);
    }
}

/// A read that finds only `k < amount` bytes after the offset returns
/// exactly those `k` bytes: the short case is byte-exact, never padded.
pub proof fn lemma_short_read_exact(content: Seq<u8>, off: nat, amount: nat)
    requires
        off <= content.len(),
        content.len() - off < amount,
    ensures
        spec_read_slice(content, off, amount).len() == content.len() - off,
        spec_read_slice(content, off, amount) == content.subrange(
            off as int,
            content.len() as int,
        ),
{
}

/// One stored file: its name and its bytes.
struct MemFile {
    name: String,
    content: Vec<u8>,
}

/// One issued handle: the path it was opened on, its lock level, whether
/// it is still open, and whether it refuses writes.
struct MemHandle {
    path: String,
    lock: LockFlag,
    open: bool,
    read_only: bool,
}

/// The in-memory provider.
pub struct MemFilesystem {
    files: Vec<MemFile>,
    handles: Vec<MemHandle>,
    strict: bool,
}

impl MemFilesystem {
    /// File names are pairwise distinct: the provider's standing
    /// invariant.
    pub closed spec fn wf(self) -> bool {
        forall|i: int, j: int| 0 <= i < j < self.files@.len() ==> self.files@[i].name@
            != self.files@[j].name@
    }

    /// Whether the provider demands strict lock ordering.
    pub closed spec fn spec_strict(self) -> bool {
        self.strict
    }

    /// Whether a file of this name exists.
    pub closed spec fn spec_has_file(self, path: Seq<char>) -> bool {
        exists|i: int| 0 <= i < self.files@.len() && self.files@[i].name@ == path
    }

    /// The position of the file's record.
    closed spec fn spec_file_index(self, path: Seq<char>) -> int {
        choose|i: int| 0 <= i < self.files@.len() && self.files@[i].name@ == path
    }

    /// The bytes of the file of this name.
    pub closed spec fn spec_content(self, path: Seq<char>) -> Seq<u8> {
        self.files@[self.spec_file_index(path)].content@
    }

    /// How many handles have ever been issued; tokens are positions.
    pub closed spec fn spec_handle_count(self) -> int {
        self.handles@.len() as int
    }

    /// Whether `h` names an issued, still-open handle.
    pub closed spec fn spec_handle_open(self, h: int) -> bool {
        0 <= h < self.handles@.len() && self.handles@[h].open
    }

    /// The path handle `h` was opened on.
    pub closed spec fn spec_handle_path(self, h: int) -> Seq<char> {
        self.handles@[h].path@
    }

    /// The lock level handle `h` holds.
    pub closed spec fn spec_handle_lock(self, h: int) -> LockFlag {
        self.handles@[h].lock
    }

    /// Whether handle `h` refuses writes.
    pub closed spec fn spec_handle_read_only(self, h: int) -> bool {
        self.handles@[h].read_only
    }

    /// No other open handle on `h`'s file holds a level that shuts out a
    /// new `level` on `h`.
    pub open spec fn spec_no_conflict(self, h: int, level: LockFlag) -> bool {
        forall|j: int|
            #![auto]
            0 <= j < self.spec_handle_count() && j != h && self.spec_handle_open(j)
                && self.spec_handle_path(j) == self.spec_handle_path(h) ==> spec_lock_compatible(
                level,
                self.spec_handle_lock(j),
            )
    }

    /// Some other open handle on `h`'s file holds at least `Reserved`.
    pub open spec fn spec_reserved_elsewhere(self, h: int) -> bool {
        exists|j: int|
            #![auto]
            0 <= j < self.spec_handle_count() && j != h && self.spec_handle_open(j)
                && self.spec_handle_path(j) == self.spec_handle_path(h) && spec_lock_rank(
                self.spec_handle_lock(j),
            ) >= 2
    }

    /// An index holding `path` is the index every path-keyed view reads.
    proof fn lemma_file_index_determined(self, path: Seq<char>, i: int)
        requires
            self.wf(),
            0 <= i < self.files@.len(),
            self.files@[i].name@ == path,
        ensures
            self.spec_has_file(path),
            self.spec_file_index(path) == i,
            self.spec_content(path) == self.files@[i].content@,
    {
        assert(self.spec_has_file(path));
        let j = self.spec_file_index(path);
        if i < j {
            assert(self.files@[i].name@ != self.files@[j].name@);
        } else if j < i {
            assert(self.files@[j].name@ != self.files@[i].name@);
        }
    }

    /// An empty provider with the given lock-ordering demand.
    pub fn new(strict: bool) -> (r: MemFilesystem)
        ensures
            r.wf(),
            r.spec_strict() == strict,
            forall|p: Seq<char>| !r.spec_has_file(p),
            r.spec_handle_count() == 0,
    {
        MemFilesystem { files: Vec::new(), handles: Vec::new(), strict }
    }

    /// After an in-place change of file `i`'s bytes, every path still
    /// names the record it did, and every other file stands whole.
    proof fn lemma_file_update_frame(self, pre: MemFilesystem, path: Seq<char>, i: int)
        requires
            pre.wf(),
            0 <= i < pre.files@.len(),
            pre.files@[i].name@ == path,
            self.files@.len() == pre.files@.len(),
            forall|k: int| 0 <= k < pre.files@.len() && k != i ==> self.files@[k]
                == pre.files@[k],
            self.files@[i].name@ == path,
            self.handles@ == pre.handles@,
            self.strict == pre.strict,
        ensures
            self.wf(),
            self.spec_has_file(path) && pre.spec_has_file(path),
            self.spec_content(path) == self.files@[i].content@,
            spec_files_unchanged_except(pre, self, path),
            spec_handles_unchanged(pre, self),
            self.spec_strict() == pre.spec_strict(),
    {
        assert forall|a: int, b: int| 0 <= a < b < self.files@.len() implies self.files@[a].name@
            != self.files@[b].name@ by {
            assert(self.files@[a].name@ == pre.files@[a].name@);
            assert(self.files@[b].name@ == pre.files@[b].name@);
        }
        self.lemma_file_index_determined(path, i);
        pre.lemma_file_index_determined(path, i);
        assert forall|p: Seq<char>|
            p != path implies (#[trigger] self.spec_has_file(p)) == pre.spec_has_file(p) && (
        pre.spec_has_file(p) ==> self.spec_content(p) == pre.spec_content(p)) by {
            if pre.spec_has_file(p) {
                let k = choose|k: int| 0 <= k < pre.files@.len() && pre.files@[k].name@ == p;
                assert(k != i);
                assert(self.files@[k] == pre.files@[k]);
                self.lemma_file_index_determined(p, k);
                pre.lemma_file_index_determined(p, k);
            }
            if self.spec_has_file(p) {
                let k = choose|k: int| 0 <= k < self.files@.len() && self.files@[k].name@ == p;
                assert(k != i);
                assert(self.files@[k] == pre.files@[k]);
                assert(pre.spec_has_file(p));
            }
        }
        assert forall|h: int| 0 <= h < pre.spec_handle_count() implies #[trigger] spec_handle_same(
            pre,
            self,
            h,
        ) by {
            assert(self.handles@[h] == pre.handles@[h]);
        }
    }

    /// After an in-place change of handle `h0`'s state, every other
    /// handle and every file stands whole.
    proof fn lemma_handle_update_frame(self, pre: MemFilesystem, h0: int)
        requires
            pre.wf(),
            self.files@ == pre.files@,
            self.handles@.len() == pre.handles@.len(),
            forall|k: int| 0 <= k < pre.handles@.len() && k != h0 ==> self.handles@[k]
                == pre.handles@[k],
            self.strict == pre.strict,
        ensures
            self.wf(),
            spec_files_unchanged(pre, self),
            spec_handles_unchanged_except(pre, self, h0),
            self.spec_strict() == pre.spec_strict(),
    {
        assert forall|p: Seq<char>|
            (#[trigger] self.spec_has_file(p)) == pre.spec_has_file(p) && (pre.spec_has_file(p)
                ==> self.spec_content(p) == pre.spec_content(p)) by {
            if pre.spec_has_file(p) {
                let k = choose|k: int| 0 <= k < pre.files@.len() && pre.files@[k].name@ == p;
                assert(self.files@[k] == pre.files@[k]);
                self.lemma_file_index_determined(p, k);
                pre.lemma_file_index_determined(p, k);
            }
            if self.spec_has_file(p) {
                let k = choose|k: int| 0 <= k < self.files@.len() && self.files@[k].name@ == p;
                assert(pre.spec_has_file(p));
            }
        }
        assert forall|h: int|
            0 <= h < pre.spec_handle_count() && h != h0 implies #[trigger] spec_handle_same(
            pre,
            self,
            h,
        ) by {
            assert(self.handles@[h] == pre.handles@[h]);
        }
    }

    /// The file's position under `path`, if one exists.
    fn find_file(&self, path: &String) -> (r: Option<usize>)
        ensures
            match r {
                Some(i) => i < self.files@.len() && self.files@[i as int].name@ == path@,
                None => !self.spec_has_file(path@),
            },
    {
        let mut i: usize = 0;
        while i < self.files.len()
            invariant
                i <= self.files@.len(),
                forall|k: int| 0 <= k < i ==> self.files@[k].name@ != path@,
            decreases self.files@.len() - i,
        {
            if self.files[i].name == *path {
                return Some(i);
            }
            i += 1;
        }
        None
    }

    /// Opens `path`: an existing file opens unless `create` and
    /// `exclusive` both stand; an absent file is created empty under
    /// `create` and refused with `NotFound` otherwise. Success issues the
    /// next handle token, open, unlocked, read-only exactly when the
    /// flags ask for reading without writing.
    pub fn open_file(&mut self, path: &String, flags: &OpenFlags) -> (r: Result<
        usize,
        BackendError,
    >)
        requires
            old(self).wf(),
        ensures
            final(self).wf(),
            final(self).spec_strict() == old(self).spec_strict(),
            r is Ok <==> ((old(self).spec_has_file(path@) && !(flags.create && flags.exclusive))
                || (!old(self).spec_has_file(path@) && flags.create)),
            !old(self).spec_has_file(path@) && !flags.create ==> r == Err::<usize, BackendError>(
                BackendError::NotFound,
            ),
            old(self).spec_has_file(path@) && flags.create && flags.exclusive ==> r == Err::<
                usize,
                BackendError,
            >(BackendError::PermissionDenied),
            r is Err ==> *final(self) == *old(self),
            r is Ok ==> r->Ok_0 as int == old(self).spec_handle_count()
                && final(self).spec_handle_count() == old(self).spec_handle_count() + 1,
            r is Ok ==> final(self).spec_handle_open(r->Ok_0 as int)
                && final(self).spec_handle_path(r->Ok_0 as int) == path@
                && final(self).spec_handle_lock(r->Ok_0 as int) == LockFlag::Unlocked
                && final(self).spec_handle_read_only(r->Ok_0 as int) == (flags.read_only
                && !flags.read_write),
            r is Ok ==> forall|h: int|
                0 <= h < old(self).spec_handle_count() ==> #[trigger] spec_handle_same(
                    *old(self),
                    *final(self),
                    h,
                ),
            r is Ok && old(self).spec_has_file(path@) ==> spec_files_unchanged(
                *old(self),
                *final(self),
            ),
            r is Ok && !old(self).spec_has_file(path@) ==> spec_files_unchanged_except(
                *old(self),
                *final(self),
                path@,
            ),
            r is Ok ==> final(self).spec_has_file(path@) && final(self).spec_content(path@) == (
            if old(self).spec_has_file(path@) {
                old(self).spec_content(path@)
            } else {
                Seq::<u8>::empty()
            }),
    {
        let read_only = flags.read_only && !flags.read_write;
        let found = self.find_file(path);
        match found {
            Some(i) => {
                if flags.create && flags.exclusive {
                    Err(BackendError::PermissionDenied)
                } else {
                    let h = self.handles.len();
                    let ghost pre = *self;
                    self.handles.push(
                        MemHandle {
                            path: path.clone(),
                            lock: LockFlag::Unlocked,
                            open: true,
                            read_only,
                        },
                    );
                    proof {
                        assert(self.files@ == pre.files@);
                        assert forall|k: int|
                            0 <= k < pre.spec_handle_count() implies #[trigger] spec_handle_same(
                            pre,
                            *self,
                            k,
                        ) by {
                            assert(self.handles@[k] == pre.handles@[k]);
                        }
                        assert forall|p: Seq<char>|
                            (#[trigger] self.spec_has_file(p)) == pre.spec_has_file(p) && (
                        pre.spec_has_file(p) ==> self.spec_content(p) == pre.spec_content(
                            p,
                        )) by {}
                        self.lemma_file_index_determined(path@, i as int);
                        pre.lemma_file_index_determined(path@, i as int);
                    }
                    Ok(h)
                }
            },
            None => {
                if flags.create {
                    let h = self.handles.len();
                    let ghost pre = *self;
                    self.files.push(MemFile { name: path.clone(), content: Vec::new() });
                    self.handles.push(
                        MemHandle {
                            path: path.clone(),
                            lock: LockFlag::Unlocked,
                            open: true,
                            read_only,
                        },
                    );
                    proof {
                        let files = self.files@;
                        let n = pre.files@.len() as int;
                        assert(forall|k: int| 0 <= k < n ==> files[k] == pre.files@[k]);
                        assert(forall|k: int| 0 <= k < n ==> files[k].name@ != path@);
                        assert forall|a: int, b: int| 0 <= a < b < files.len() implies files[a].name@
                            != files[b].name@ by {}
                        self.lemma_file_index_determined(path@, n);
                        assert(self.spec_content(path@) =~= Seq::<u8>::empty());
                        assert forall|k: int|
                            0 <= k < pre.spec_handle_count() implies #[trigger] spec_handle_same(
                            pre,
                            *self,
                            k,
                        ) by {
                            assert(self.handles@[k] == pre.handles@[k]);
                        }
                        assert forall|p: Seq<char>|
                            p != path@ implies (#[trigger] self.spec_has_file(p))
                            == pre.spec_has_file(p) && (pre.spec_has_file(p)
                            ==> self.spec_content(p) == pre.spec_content(p)) by {
                            if pre.spec_has_file(p) {
                                let k = choose|k: int| 0 <= k < n && pre.files@[k].name@ == p;
                                assert(files[k] == pre.files@[k]);
                                self.lemma_file_index_determined(p, k);
                                pre.lemma_file_index_determined(p, k);
                            }
                            if self.spec_has_file(p) {
                                let k = choose|k: int|
                                    0 <= k < files.len() && files[k].name@ == p;
                                assert(k != n);
                                assert(pre.files@[k].name@ == p);
                                assert(pre.spec_has_file(p));
                            }
                        }
                    }
                    Ok(h)
                } else {
                    Err(BackendError::NotFound)
                }
            },
        }
    }

    /// Removes `path`; fails with `NotFound`, changing nothing, when no
    /// such file exists. The durability request needs no work here.
    pub fn delete_file(&mut self, path: &String, _sync_to_system: bool) -> (r: Result<
        (),
        BackendError,
    >)
        requires
            old(self).wf(),
        ensures
            final(self).wf(),
            final(self).spec_strict() == old(self).spec_strict(),
            r is Ok <==> old(self).spec_has_file(path@),
            r is Err ==> r == Err::<(), BackendError>(BackendError::NotFound) && *final(self)
                == *old(self),
            r is Ok ==> !final(self).spec_has_file(path@),
            r is Ok ==> spec_files_unchanged_except(*old(self), *final(self), path@),
            r is Ok ==> spec_handles_unchanged(*old(self), *final(self)),
    {
        let found = self.find_file(path);
        match found {
            None => Err(BackendError::NotFound),
            Some(i) => {
                let ghost pre = *self;
                self.files.remove(i);
                proof {
                    let files = self.files@;
                    let old_files = pre.files@;
                    assert(files == old_files.remove(i as int));
                    assert forall|a: int, b: int| 0 <= a < b < files.len() implies files[a].name@
                        != files[b].name@ by {
                        let a0 = if a < i { a } else { a + 1 };
                        let b0 = if b < i { b } else { b + 1 };
                        assert(files[a] == old_files[a0]);
                        assert(files[b] == old_files[b0]);
                    }
                    assert(!self.spec_has_file(path@)) by {
                        if self.spec_has_file(path@) {
                            let k = choose|k: int|
                                0 <= k < files.len() && files[k].name@ == path@;
                            let k0 = if k < i { k } else { k + 1 };
                            assert(old_files[k0].name@ == path@);
                            assert(old_files[i as int].name@ == path@);
                        }
                    }
                    assert forall|p: Seq<char>|
                        p != path@ implies (#[trigger] self.spec_has_file(p))
                        == pre.spec_has_file(p) && (pre.spec_has_file(p) ==> self.spec_content(p)
                        == pre.spec_content(p)) by {
                        if pre.spec_has_file(p) {
                            let k0 = choose|k: int|
                                0 <= k < old_files.len() && old_files[k].name@ == p;
                            assert(k0 != i);
                            let k = if k0 < i { k0 } else { k0 - 1 };
                            assert(files[k] == old_files[k0]);
                            self.lemma_file_index_determined(p, k);
                            pre.lemma_file_index_determined(p, k0);
                        }
                        if self.spec_has_file(p) {
                            let k = choose|k: int| 0 <= k < files.len() && files[k].name@ == p;
                            let k0 = if k < i { k } else { k + 1 };
                            assert(files[k] == old_files[k0]);
                            assert(pre.spec_has_file(p));
                        }
                    }
                    assert forall|h: int|
                        0 <= h < pre.spec_handle_count() implies #[trigger] spec_handle_same(
                        pre,
                        *self,
                        h,
                    ) by {
                        assert(self.handles@[h] == pre.handles@[h]);
                    }
                }
                Ok(())
            },
        }
    }

    /// Answers an access query: success exactly when nothing was asked or
    /// the file exists, since every stored file here may be read and
    /// written; otherwise `NotFound`.
    pub fn access_file(&self, path: &String, flags: &Vec<AccessFlag>) -> (r: Result<
        (),
        BackendError,
    >)
        ensures
            r is Ok <==> (flags@.len() == 0 || self.spec_has_file(path@)),
            r is Err ==> r == Err::<(), BackendError>(BackendError::NotFound),
    {
        if flags.len() == 0 {
            Ok(())
        } else {
            match self.find_file(path) {
                Some(i) => {
                    proof {
                        assert(self.spec_has_file(path@));
                    }
                    Ok(())
                },
                None => Err(BackendError::NotFound),
            }
        }
    }

    /// Resolves a path to its canonical form: paths here are already
    /// canonical, so the input comes back unchanged.
    pub fn resolve_path(&self, path: &String) -> (r: Result<String, BackendError>)
        ensures
            r is Ok,
            r->Ok_0@ == path@,
    {
        Ok(path.clone())
    }

    /// How many handle tokens have been issued.
    pub fn handle_count(&self) -> (r: usize)
        ensures
            r as int == self.spec_handle_count(),
    {
        self.handles.len()
    }

    /// The lock level of an issued handle.
    pub fn handle_lock_level(&self, h: usize) -> (r: Option<LockFlag>)
        ensures
            (h as int) < self.spec_handle_count() ==> r == Some(self.spec_handle_lock(h as int)),
            (h as int) >= self.spec_handle_count() ==> r is None,
    {
        if h < self.handles.len() {
            Some(self.handles[h].lock)
        } else {
            None
        }
    }

    /// Whether an issued handle is still open.
    pub fn handle_is_open(&self, h: usize) -> (r: bool)
        ensures
            r == self.spec_handle_open(h as int),
    {
        h < self.handles.len() && self.handles[h].open
    }

    /// Flushes a file: the bytes already are durable here, so an open
    /// handle succeeds with nothing to do.
    pub fn sync_file(&mut self, h: usize, _flags: i32) -> (r: Result<(), BackendError>)
        ensures
            *final(self) == *old(self),
            !old(self).spec_handle_open(h as int) ==> r == Err::<(), BackendError>(
                BackendError::IOFailure,
            ),
            old(self).spec_handle_open(h as int) ==> r is Ok,
    {
        if h >= self.handles.len() || !self.handles[h].open {
            Err(BackendError::IOFailure)
        } else {
            Ok(())
        }
    }

    /// The size of the handle's file, in bytes; a stale handle reports
    /// the failure rather than a made-up length.
    pub fn file_size(&self, h: usize) -> (r: Result<u64, BackendError>)
        requires
            self.wf(),
        ensures
            !self.spec_handle_open(h as int) ==> r == Err::<u64, BackendError>(
                BackendError::IOFailure,
            ),
            self.spec_handle_open(h as int) && !self.spec_has_file(
                self.spec_handle_path(h as int),
            ) ==> r == Err::<u64, BackendError>(BackendError::NotFound),
            self.spec_handle_open(h as int) && self.spec_has_file(self.spec_handle_path(h as int))
                ==> r is Ok && r->Ok_0 as int == self.spec_content(
                self.spec_handle_path(h as int),
            ).len(),
    {
        if h >= self.handles.len() || !self.handles[h].open {
            return Err(BackendError::IOFailure);
        }
        let path = &self.handles[h].path;
        match self.find_file(path) {
            None => Err(BackendError::NotFound),
            Some(i) => {
                proof {
                    self.lemma_file_index_determined(self.handles@[h as int].path@, i as int);
                }
                Ok(self.files[i].content.len() as u64)
            },
        }
    }

    /// Acquires `level` on handle `h`. A request at or below the held
    /// level succeeds untouched; an upgrade outside the ordering protocol
    /// is `Unsupported`; one shut out by another handle's lock on the
    /// same file is `Busy`; otherwise the handle moves to `level` and
    /// nothing else moves at all.
    #[verifier::loop_isolation(false)]
    pub fn lock_handle(&mut self, h: usize, level: LockFlag) -> (r: Result<(), BackendError>)
        requires
            old(self).wf(),
        ensures
            final(self).wf(),
            final(self).spec_strict() == old(self).spec_strict(),
            !old(self).spec_handle_open(h as int) ==> r == Err::<(), BackendError>(
                BackendError::IOFailure,
            ) && *final(self) == *old(self),
            old(self).spec_handle_open(h as int) && spec_lock_le(
                level,
                old(self).spec_handle_lock(h as int),
            ) ==> r is Ok && *final(self) == *old(self),
            old(self).spec_handle_open(h as int) && !spec_lock_le(
                level,
                old(self).spec_handle_lock(h as int),
            ) && !spec_lock_request_ok(
                old(self).spec_handle_lock(h as int),
                level,
                old(self).spec_strict(),
            ) ==> r == Err::<(), BackendError>(BackendError::Unsupported) && *final(self) == *old(self),
            old(self).spec_handle_open(h as int) && !spec_lock_le(
                level,
                old(self).spec_handle_lock(h as int),
            ) && spec_lock_request_ok(
                old(self).spec_handle_lock(h as int),
                level,
                old(self).spec_strict(),
            ) && !old(self).spec_no_conflict(h as int, level) ==> r == Err::<(), BackendError>(
                BackendError::Busy,
            ) && *final(self) == *old(self),
            old(self).spec_handle_open(h as int) && !spec_lock_le(
                level,
                old(self).spec_handle_lock(h as int),
            ) && spec_lock_request_ok(
                old(self).spec_handle_lock(h as int),
                level,
                old(self).spec_strict(),
            ) && old(self).spec_no_conflict(h as int, level) ==> r is Ok && final(self).spec_handle_lock(h as int) == level && final(self).spec_handle_open(h as int)
                && final(self).spec_handle_path(h as int) == old(self).spec_handle_path(h as int)
                && final(self).spec_handle_read_only(h as int) == old(self).spec_handle_read_only(
                h as int,
            ) && spec_files_unchanged(*old(self), *final(self)) && spec_handles_unchanged_except(
                *old(self),
                *final(self),
                h as int,
            ),
    {
        if h >= self.handles.len() || !self.handles[h].open {
            return Err(BackendError::IOFailure);
        }
        let cur = self.handles[h].lock;
        if level.le(&cur) {
            return Ok(());
        }
        let decision = lock_request_decision(&cur, &level, self.strict);
        if decision == LockDecision::Reject {
            return Err(BackendError::Unsupported);
        }
        let mut j: usize = 0;
        while j < self.handles.len()
            invariant
                j <= self.handles@.len(),
                h < self.handles@.len(),
                forall|k: int|
                    #![auto]
                    0 <= k < j && k != h && self.spec_handle_open(k) && self.spec_handle_path(k)
                        == self.spec_handle_path(h as int) ==> spec_lock_compatible(
                        level,
                        self.spec_handle_lock(k),
                    ),
            decreases self.handles@.len() - j,
        {
            if j != h && self.handles[j].open {
                if self.handles[j].path == self.handles[h].path {
                    if !lock_compatible(&level, &self.handles[j].lock) {
                        proof {
                            assert(self.spec_handle_open(j as int));
                            assert(self.spec_handle_path(j as int) == self.spec_handle_path(
                                h as int,
                            ));
                            assert(!spec_lock_compatible(level, self.spec_handle_lock(j as int)));
                            assert(!self.spec_no_conflict(h as int, level));
                        }
                        return Err(BackendError::Busy);
                    }
                }
            }
            j += 1;
        }
        let ghost pre = *self;
        let hh = &mut self.handles[h];
        hh.lock = level;
        proof {
            self.lemma_handle_update_frame(pre, h as int);
        }
        Ok(())
    }

    /// Lowers handle `h`'s lock to `level`; raising it this way is
    /// outside the protocol and `Unsupported`.
    pub fn unlock_handle(&mut self, h: usize, level: LockFlag) -> (r: Result<(), BackendError>)
        requires
            old(self).wf(),
        ensures
            final(self).wf(),
            final(self).spec_strict() == old(self).spec_strict(),
            !old(self).spec_handle_open(h as int) ==> r == Err::<(), BackendError>(
                BackendError::IOFailure,
            ) && *final(self) == *old(self),
            old(self).spec_handle_open(h as int) && !spec_lock_le(
                level,
                old(self).spec_handle_lock(h as int),
            ) ==> r == Err::<(), BackendError>(BackendError::Unsupported) && *final(self) == *old(self),
            old(self).spec_handle_open(h as int) && spec_lock_le(
                level,
                old(self).spec_handle_lock(h as int),
            ) ==> r is Ok && final(self).spec_handle_lock(h as int) == level && final(self).spec_handle_open(h as int) && final(self).spec_handle_path(h as int) == old(self).spec_handle_path(h as int) && final(self).spec_handle_read_only(h as int) == old(self).spec_handle_read_only(h as int) && spec_files_unchanged(*old(self), *final(self))
                && spec_handles_unchanged_except(*old(self), *final(self), h as int),
    {
        if h >= self.handles.len() || !self.handles[h].open {
            return Err(BackendError::IOFailure);
        }
        let cur = self.handles[h].lock;
        if !level.le(&cur) {
            return Err(BackendError::Unsupported);
        }
        let ghost pre = *self;
        let hh = &mut self.handles[h];
        hh.lock = level;
        proof {
            self.lemma_handle_update_frame(pre, h as int);
        }
        Ok(())
    }

    /// Whether some other open handle on `h`'s file holds at least the
    /// `Reserved` level.
    #[verifier::loop_isolation(false)]
    pub fn check_reserved(&self, h: usize) -> (r: Result<bool, BackendError>)
        requires
            self.wf(),
        ensures
            !self.spec_handle_open(h as int) ==> r == Err::<bool, BackendError>(
                BackendError::IOFailure,
            ),
            self.spec_handle_open(h as int) ==> r == Ok::<bool, BackendError>(
                self.spec_reserved_elsewhere(h as int),
            ),
    {
        if h >= self.handles.len() || !self.handles[h].open {
            return Err(BackendError::IOFailure);
        }
        let mut j: usize = 0;
        while j < self.handles.len()
            invariant
                j <= self.handles@.len(),
                h < self.handles@.len(),
                forall|k: int|
                    #![auto]
                    0 <= k < j ==> !(k != h && self.spec_handle_open(k) && self.spec_handle_path(
                        k,
                    ) == self.spec_handle_path(h as int) && spec_lock_rank(
                        self.spec_handle_lock(k),
                    ) >= 2),
            decreases self.handles@.len() - j,
        {
            if j != h && self.handles[j].open {
                if self.handles[j].path == self.handles[h].path {
                    if self.handles[j].lock.native_level() >= 2 {
                        proof {
                            assert(self.spec_handle_open(j as int));
                            assert(self.spec_handle_path(j as int) == self.spec_handle_path(
                                h as int,
                            ));
                            assert(spec_lock_rank(self.spec_handle_lock(j as int)) >= 2);
                            assert(self.spec_reserved_elsewhere(h as int));
                        }
                        return Ok(true);
                    }
                }
            }
            j += 1;
        }
        Ok(false)
    }

    /// Reads up to `amount` bytes at `offset` from handle `h`'s file:
    /// exactly the bytes that are there, never padding, empty once the
    /// offset passes the end.
    #[verifier::loop_isolation(false)]
    pub fn read_at(&self, h: usize, amount: usize, offset: u64) -> (r: Result<Vec<u8>, BackendError>)
        requires
            self.wf(),
        ensures
            !self.spec_handle_open(h as int) ==> r == Err::<Vec<u8>, BackendError>(
                BackendError::IOFailure,
            ),
            self.spec_handle_open(h as int) && !self.spec_has_file(
                self.spec_handle_path(h as int),
            ) ==> r == Err::<Vec<u8>, BackendError>(BackendError::NotFound),
            self.spec_handle_open(h as int) && self.spec_has_file(self.spec_handle_path(h as int))
                ==> r is Ok && r->Ok_0@ == spec_read_slice(
                self.spec_content(self.spec_handle_path(h as int)),
                offset as nat,
                amount as nat,
            ),
            r is Ok ==> r->Ok_0@.len() <= amount,
    {
        if h >= self.handles.len() || !self.handles[h].open {
            return Err(BackendError::IOFailure);
        }
        let path = &self.handles[h].path;
        let found = self.find_file(path);
        match found {
            None => Err(BackendError::NotFound),
            Some(fi) => {
                proof {
                    self.lemma_file_index_determined(self.handles@[h as int].path@, fi as int);
                }
                let content = &self.files[fi].content;
                let clen = content.len();
                if offset >= clen as u64 {
                    proof {
                        assert(spec_read_slice(content@, offset as nat, amount as nat)
                            =~= Seq::<u8>::empty());
                    }
                    return Ok(Vec::new());
                }
                let start = offset as usize;
                let mut out: Vec<u8> = Vec::new();
                let mut i = start;
                while i < clen && out.len() < amount
                    invariant
                        start <= i <= clen,
                        out@.len() == i - start,
                        out@.len() <= amount,
                        out@ == content@.subrange(start as int, i as int),
                    decreases clen - i,
                {
                    out.push(content[i]);
                    i += 1;
                    proof {
                        assert(out@ =~= content@.subrange(start as int, i as int));
                    }
                }
                proof {
                    assert(out@ =~= spec_read_slice(content@, offset as nat, amount as nat));
                }
                Ok(out)
            },
        }
    }

    /// Writes `data` at `offset` through handle `h`: the gap up to the
    /// offset, if any, fills with zeros, the written range carries
    /// `data`, everything else keeps its bytes, and every byte is
    /// accepted. A read-only handle refuses, a stale handle fails, and a
    /// write whose end passes the machine's addressable length fails
    /// untouched.
    #[verifier::loop_isolation(false)]
    pub fn write_at(&mut self, h: usize, data: &Vec<u8>, offset: u64) -> (r: Result<
        usize,
        BackendError,
    >)
        requires
            old(self).wf(),
        ensures
            final(self).wf(),
            final(self).spec_strict() == old(self).spec_strict(),
            !old(self).spec_handle_open(h as int) ==> r == Err::<usize, BackendError>(
                BackendError::IOFailure,
            ) && *final(self) == *old(self),
            old(self).spec_handle_open(h as int) && old(self).spec_handle_read_only(h as int)
                ==> r == Err::<usize, BackendError>(BackendError::PermissionDenied) && *final(self)
                == *old(self),
            old(self).spec_handle_open(h as int) && !old(self).spec_handle_read_only(h as int)
                && !old(self).spec_has_file(old(self).spec_handle_path(h as int)) ==> r == Err::<
                usize,
                BackendError,
            >(BackendError::NotFound) && *final(self) == *old(self),
            old(self).spec_handle_open(h as int) && !old(self).spec_handle_read_only(h as int)
                && old(self).spec_has_file(old(self).spec_handle_path(h as int)) && offset as int
                + data@.len() > usize::MAX as int ==> r == Err::<usize, BackendError>(
                BackendError::IOFailure,
            ) && *final(self) == *old(self),
            old(self).spec_handle_open(h as int) && !old(self).spec_handle_read_only(h as int)
                && old(self).spec_has_file(old(self).spec_handle_path(h as int)) && offset as int
                + data@.len() <= usize::MAX as int ==> r is Ok && r->Ok_0 as int == data@.len()
                && final(self).spec_has_file(old(self).spec_handle_path(h as int))
                && final(self).spec_content(old(self).spec_handle_path(h as int))
                == spec_write_effect(
                old(self).spec_content(old(self).spec_handle_path(h as int)),
                offset as nat,
                data@,
            ) && spec_files_unchanged_except(
                *old(self),
                *final(self),
                old(self).spec_handle_path(h as int),
            ) && spec_handles_unchanged(*old(self), *final(self)),
    {
        if h >= self.handles.len() || !self.handles[h].open {
            return Err(BackendError::IOFailure);
        }
        if self.handles[h].read_only {
            return Err(BackendError::PermissionDenied);
        }
        let path = self.handles[h].path.clone();
        let found = self.find_file(&path);
        match found {
            None => Err(BackendError::NotFound),
            Some(fi) => {
                if data.len() > 0 && offset > (usize::MAX - data.len()) as u64 {
                    return Err(BackendError::IOFailure);
                }
                if data.len() == 0 && offset > usize::MAX as u64 {
                    return Err(BackendError::IOFailure);
                }
                let off = offset as usize;
                let ghost pre = *self;
                let ghost c0 = self.files@[fi as int].content@;
                proof {
                    self.lemma_file_index_determined(path@, fi as int);
                }
                let mut file = self.files.remove(fi);
                while file.content.len() < off
                    invariant
                        file.name@ == path@,
                        file.content@.len() >= c0.len(),
                        file.content@.len() <= spec_max2(c0.len() as int, off as int),
                        forall|q: int| 0 <= q < c0.len() ==> file.content@[q] == c0[q],
                        forall|q: int|
                            c0.len() <= q < file.content@.len() ==> file.content@[q] == 0u8,
                    decreases off - file.content@.len(),
                {
                    file.content.push(0u8);
                }
                let mut k: usize = 0;
                while k < data.len()
                    invariant
                        k <= data@.len(),
                        file.name@ == path@,
                        file.content@.len() == spec_max2(c0.len() as int, off as int + k as int),
                        forall|q: int|
                            0 <= q < file.content@.len() ==> file.content@[q] == (if off <= q < off
                                + k {
                                data@[q - off]
                            } else if q < c0.len() {
                                c0[q]
                            } else {
                                0u8
                            }),
                    decreases data@.len() - k,
                {
                    let pos = off + k;
                    if pos < file.content.len() {
                        file.content[pos] = data[k];
                    } else {
                        file.content.push(data[k]);
                    }
                    k += 1;
                }
                proof {
                    assert(file.content@ =~= spec_write_effect(c0, offset as nat, data@));
                }
                self.files.insert(fi, file);
                proof {
                    assert(self.files@ =~= pre.files@.update(
                        fi as int,
                        self.files@[fi as int],
                    ));
                    self.lemma_file_update_frame(pre, path@, fi as int);
                }
                Ok(data.len())
            },
        }
    }

    /// Shortens handle `h`'s file to at most `length` bytes; a file
    /// already short enough keeps its bytes. A read-only handle refuses
    /// and a stale handle fails, both untouched.
    pub fn truncate_file(&mut self, h: usize, length: u64) -> (r: Result<(), BackendError>)
        requires
            old(self).wf(),
        ensures
            final(self).wf(),
            final(self).spec_strict() == old(self).spec_strict(),
            !old(self).spec_handle_open(h as int) ==> r == Err::<(), BackendError>(
                BackendError::IOFailure,
            ) && *final(self) == *old(self),
            old(self).spec_handle_open(h as int) && old(self).spec_handle_read_only(h as int)
                ==> r == Err::<(), BackendError>(BackendError::PermissionDenied) && *final(self)
                == *old(self),
            old(self).spec_handle_open(h as int) && !old(self).spec_handle_read_only(h as int)
                && !old(self).spec_has_file(old(self).spec_handle_path(h as int)) ==> r == Err::<
                (),
                BackendError,
            >(BackendError::NotFound) && *final(self) == *old(self),
            old(self).spec_handle_open(h as int) && !old(self).spec_handle_read_only(h as int)
                && old(self).spec_has_file(old(self).spec_handle_path(h as int)) ==> r is Ok
                && final(self).spec_has_file(old(self).spec_handle_path(h as int))
                && final(self).spec_content(old(self).spec_handle_path(h as int))
                == spec_truncate_effect(
                old(self).spec_content(old(self).spec_handle_path(h as int)),
                length as nat,
            ) && spec_files_unchanged_except(
                *old(self),
                *final(self),
                old(self).spec_handle_path(h as int),
            ) && spec_handles_unchanged(*old(self), *final(self)),
    {
        if h >= self.handles.len() || !self.handles[h].open {
            return Err(BackendError::IOFailure);
        }
        if self.handles[h].read_only {
            return Err(BackendError::PermissionDenied);
        }
        let path = self.handles[h].path.clone();
        let found = self.find_file(&path);
        match found {
            None => Err(BackendError::NotFound),
            Some(fi) => {
                let ghost pre = *self;
                let ghost c0 = self.files@[fi as int].content@;
                proof {
                    self.lemma_file_index_determined(path@, fi as int);
                }
                let mut file = self.files.remove(fi);
                if length < file.content.len() as u64 {
                    file.content.truncate(length as usize);
                }
                proof {
                    assert(file.content@ =~= spec_truncate_effect(c0, length as nat));
                }
                self.files.insert(fi, file);
                proof {
                    assert(self.files@ =~= pre.files@.update(
                        fi as int,
                        self.files@[fi as int],
                    ));
                    self.lemma_file_update_frame(pre, path@, fi as int);
                }
                Ok(())
            },
        }
    }

    /// Releases handle `h`: an open handle closes and drops its lock, a
    /// handle already closed stays a successful no-op, and a token never
    /// issued is a failure.
    pub fn close_handle(&mut self, h: usize) -> (r: Result<(), BackendError>)
        requires
            old(self).wf(),
        ensures
            final(self).wf(),
            final(self).spec_strict() == old(self).spec_strict(),
            (h as int) >= old(self).spec_handle_count() ==> r == Err::<(), BackendError>(
                BackendError::IOFailure,
            ) && *final(self) == *old(self),
            (h as int) < old(self).spec_handle_count() && !old(self).spec_handle_open(h as int)
                ==> r is Ok && *final(self) == *old(self),
            old(self).spec_handle_open(h as int) ==> r is Ok && !final(self).spec_handle_open(
                h as int,
            ) && final(self).spec_handle_lock(h as int) == LockFlag::Unlocked && final(self).spec_handle_path(h as int) == old(self).spec_handle_path(h as int)
                && spec_files_unchanged(*old(self), *final(self)) && spec_handles_unchanged_except(
                *old(self),
                *final(self),
                h as int,
            ),
    {
        if h >= self.handles.len() {
            return Err(BackendError::IOFailure);
        }
        if !self.handles[h].open {
            return Ok(());
        }
        let ghost pre = *self;
        let hh = &mut self.handles[h];
        hh.lock = LockFlag::Unlocked;
        hh.open = false;
        proof {
            self.lemma_handle_update_frame(pre, h as int);
        }
        Ok(())
    }
}

impl VirtualFilesystem for MemFilesystem {
    open spec fn inv(&self) -> bool {
        self.wf()
    }

    open spec fn strict_lock_order(&self) -> bool {
        self.spec_strict()
    }

    fn strict_locking(&self) -> (r: bool) {
        self.strict
    }

    fn open(&mut self, path: &String, flags: &OpenFlags) -> (r: Result<usize, BackendError>) {
        self.open_file(path, flags)
    }

    fn delete(&mut self, path: &String, sync_to_system: bool) -> (r: Result<(), BackendError>) {
        self.delete_file(path, sync_to_system)
    }

    fn access(&self, path: &String, flags: &Vec<AccessFlag>) -> (r: Result<(), BackendError>) {
        self.access_file(path, flags)
    }

    fn full_pathname(&self, path: &String) -> (r: Result<String, BackendError>) {
        self.resolve_path(path)
    }

    fn read(&self, handle: usize, amount: usize, offset: u64) -> (r: Result<Vec<u8>, BackendError>) {
        self.read_at(handle, amount, offset)
    }

    fn write(&mut self, handle: usize, data: &Vec<u8>, offset: u64) -> (r: Result<
        usize,
        BackendError,
    >) {
        self.write_at(handle, data, offset)
    }

    fn truncate(&mut self, handle: usize, length: u64) -> (r: Result<(), BackendError>) {
        self.truncate_file(handle, length)
    }

    fn sync(&mut self, handle: usize, flags: i32) -> (r: Result<(), BackendError>) {
        self.sync_file(handle, flags)
    }

    fn size(&self, handle: usize) -> (r: Result<u64, BackendError>) {
        self.file_size(handle)
    }

    fn lock(&mut self, handle: usize, level: LockFlag) -> (r: Result<(), BackendError>) {
        self.lock_handle(handle, level)
    }

    fn unlock(&mut self, handle: usize, level: LockFlag) -> (r: Result<(), BackendError>) {
        self.unlock_handle(handle, level)
    }

    fn check_reserved_lock(&self, handle: usize) -> (r: Result<bool, BackendError>) {
        self.check_reserved(handle)
    }

    fn close(&mut self, handle: usize) -> (r: Result<(), BackendError>) {
        self.close_handle(handle)
    }

    fn sector_size(&self) -> (r: i32) {
        512
    }

    fn device_characteristics(&self) -> (r: Vec<i32>) {
        Vec::new()
    }
}

/// Every file the provider serves keeps its presence and bytes.
pub open spec fn spec_files_unchanged(pre: MemFilesystem, post: MemFilesystem) -> bool {
    forall|p: Seq<char>|
        (#[trigger] post.spec_has_file(p)) == pre.spec_has_file(p) && (pre.spec_has_file(p)
            ==> post.spec_content(p) == pre.spec_content(p))
}

/// Every file but `path` keeps its presence and bytes.
pub open spec fn spec_files_unchanged_except(
    pre: MemFilesystem,
    post: MemFilesystem,
    path: Seq<char>,
) -> bool {
    forall|p: Seq<char>|
        p != path ==> (#[trigger] post.spec_has_file(p)) == pre.spec_has_file(p) && (
        pre.spec_has_file(p) ==> post.spec_content(p) == pre.spec_content(p))
}

/// Handle `h` keeps its whole adapter-visible state.
pub open spec fn spec_handle_same(pre: MemFilesystem, post: MemFilesystem, h: int) -> bool {
    post.spec_handle_open(h) == pre.spec_handle_open(h) && post.spec_handle_path(h)
        == pre.spec_handle_path(h) && post.spec_handle_lock(h) == pre.spec_handle_lock(h)
        && post.spec_handle_read_only(h) == pre.spec_handle_read_only(h)
}

/// Every issued handle keeps its whole state, and none is issued anew.
pub open spec fn spec_handles_unchanged(pre: MemFilesystem, post: MemFilesystem) -> bool {
    post.spec_handle_count() == pre.spec_handle_count() && forall|h: int|
        0 <= h < pre.spec_handle_count() ==> #[trigger] spec_handle_same(pre, post, h)
}

/// Every issued handle but `h0` keeps its whole state, and none is
/// issued anew.
pub open spec fn spec_handles_unchanged_except(
    pre: MemFilesystem,
    post: MemFilesystem,
    h0: int,
) -> bool {
    post.spec_handle_count() == pre.spec_handle_count() && forall|h: int|
        0 <= h < pre.spec_handle_count() && h != h0 ==> #[trigger] spec_handle_same(pre, post, h)
}

/// Handles on distinct paths stand apart: an operation that touches only
/// handle `h` and, at most, `h`'s file leaves every other handle's whole
/// state, and the presence and bytes of every other open path, exactly
/// as they were.
pub proof fn lemma_distinct_paths_independent(
    pre: MemFilesystem,
    post: MemFilesystem,
    h: int,
    other: int,
)
    requires
        spec_handles_unchanged_except(pre, post, h),
        spec_files_unchanged_except(pre, post, pre.spec_handle_path(h)),
        0 <= other < pre.spec_handle_count(),
        other != h,
        pre.spec_handle_path(other) != pre.spec_handle_path(h),
    ensures
        spec_handle_same(pre, post, other),
        post.spec_has_file(pre.spec_handle_path(other)) == pre.spec_has_file(
            pre.spec_handle_path(other),
        ),
        pre.spec_has_file(pre.spec_handle_path(other)) ==> post.spec_content(
            pre.spec_handle_path(other),
        ) == pre.spec_content(pre.spec_handle_path(other)),
{
}

} // verus!
