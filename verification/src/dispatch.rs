//! The operation dispatcher: one state unit holding the inode registry,
//! the handle allocator and the two open-resource registries, with one
//! function per protocol operation. The surrounding binary resolves a
//! request in two steps: it asks this core for the path or resource the
//! request names, performs the one real filesystem call, and hands the
//! outcome back; the core decides the reply and every state change.
//!
//! The type parameters are the live resources an open directory and an
//! open file need (a directory stream with its scoped descriptor, an open
//! file); the core never looks inside them.

use vstd::prelude::*;

use crate::attr::{
    kind_of_mode, spec_attr_of_stat, spec_kind_of_mode, stat_to_fileattr, FileAttrData, FileKind,
    StatRecord,
};
use crate::errors::FsError;
use crate::handles::{Fh, HandleAllocator};
use crate::inodes::{InodeRegistry, ROOT_INODE};
use crate::paths::clone_bytes;
use crate::registry::OpenRegistry;

verus! {

/// The open-flag bits that request create, truncate or append semantics:
/// any of them makes an open a mutating operation, which this read-only
/// filesystem refuses.
pub const WRITE_FLAGS_MASK: i32 = 0o100 | 0o1000 | 0o2000;

/// The read-only passthrough filesystem state: everything the dispatcher
/// keeps between requests.
pub struct PassFs<D, F> {
    open_dirs: OpenRegistry<D>,
    open_files: OpenRegistry<F>,
    inuse_fhs: HandleAllocator,
    inode_map: InodeRegistry,
}

impl<D, F> PassFs<D, F> {
    /// The open-directory registry's contents.
    pub closed spec fn dirs(self) -> Map<u64, D> {
        self.open_dirs.spec_map()
    }

    /// The open-file registry's contents.
    pub closed spec fn files(self) -> Map<u64, F> {
        self.open_files.spec_map()
    }

    /// Whether handle value `h` is currently allocated.
    pub closed spec fn handle_in_use(self, h: u64) -> bool {
        self.inuse_fhs.in_use(h)
    }

    /// What the inode registry resolves `ino` to.
    pub closed spec fn resolve_spec(self, ino: u64) -> Option<Seq<Seq<u8>>> {
        self.inode_map.spec_resolve(ino)
    }

    /// The inner components keep their own invariants.
    pub closed spec fn components_wf(self) -> bool {
        &&& self.inode_map.wf()
        &&& self.inuse_fhs.wf()
    }

    /// Well-formedness: every registered resource holds an allocated
    /// handle, and the two registries never share one (handles come from
    /// a single namespace).
    pub open spec fn wf(self) -> bool {
        &&& self.components_wf()
        &&& forall|h: u64| #[trigger] self.dirs().contains_key(h) ==> self.handle_in_use(h)
        &&& forall|h: u64| #[trigger] self.files().contains_key(h) ==> self.handle_in_use(h)
        &&& forall|h: u64| #[trigger]
            self.dirs().contains_key(h) ==> !self.files().contains_key(h)
    }

    /// The two states allocate exactly the same handles.
    pub open spec fn same_handles(a: Self, b: Self) -> bool {
        forall|h: u64| a.handle_in_use(h) <==> b.handle_in_use(h)
    }

    /// The two states resolve every inode alike.
    pub open spec fn same_inodes(a: Self, b: Self) -> bool {
        forall|k: u64| a.resolve_spec(k) == b.resolve_spec(k)
    }

    /// The state `forget(ino)` leaves behind: `ino` no longer resolves,
    /// everything else is untouched.
    pub open spec fn inode_forgotten(pre: Self, post: Self, ino: u64) -> bool {
        forall|k: u64|
            post.resolve_spec(k) == (if k == ino && k != ROOT_INODE {
                None::<Seq<Seq<u8>>>
            } else {
                pre.resolve_spec(k)
            })
    }

    /// Well-formedness carries over to a state with the same registries
    /// and no handle withdrawn.
    proof fn lemma_wf_preserved(pre: Self, post: Self)
        requires
            pre.wf(),
            post.components_wf(),
            post.dirs() == pre.dirs(),
            post.files() == pre.files(),
            forall|h: u64| pre.handle_in_use(h) ==> post.handle_in_use(h),
        ensures
            post.wf(),
    {
        assert forall|x: u64| #[trigger] post.dirs().contains_key(x)
            implies post.handle_in_use(x) by {
            assert(pre.dirs().contains_key(x));
            assert(pre.handle_in_use(x));
        }
        assert forall|x: u64| #[trigger] post.files().contains_key(x)
            implies post.handle_in_use(x) by {
            assert(pre.files().contains_key(x));
            assert(pre.handle_in_use(x));
        }
        assert forall|x: u64| #[trigger] post.dirs().contains_key(x)
            implies !post.files().contains_key(x) by {
            assert(pre.dirs().contains_key(x));
            assert(!pre.files().contains_key(x));
        }
    }

    /// A fresh state unit, built once at mount time: no handle in use, no
    /// open resource, and only the root inode resolving (to the empty
    /// path).
    pub fn new() -> (fs: Self)
        ensures
            fs.wf(),
            fs.dirs() == Map::<u64, D>::empty(),
            fs.files() == Map::<u64, F>::empty(),
            forall|h: u64| !fs.handle_in_use(h),
            fs.resolve_spec(ROOT_INODE) == Some(Seq::<Seq<u8>>::empty()),
            forall|ino: u64| ino != ROOT_INODE ==> fs.resolve_spec(ino) is None,
    {
        PassFs {
            open_dirs: OpenRegistry::new(),
            open_files: OpenRegistry::new(),
            inuse_fhs: HandleAllocator::new(),
            inode_map: InodeRegistry::new(),
        }
    }

    /// Allocate the smallest handle value not currently in use.
    pub fn get_fh(&mut self) -> (h: Fh)
        requires
            old(self).wf(),
        ensures
            final(self).wf(),
            !old(self).handle_in_use(h.value()),
            forall|j: u64| j < h.value() ==> old(self).handle_in_use(j),
            forall|j: u64|
                final(self).handle_in_use(j) <==> old(self).handle_in_use(j) || j == h.value(),
            final(self).dirs() == old(self).dirs(),
            final(self).files() == old(self).files(),
            Self::same_inodes(*old(self), *final(self)),
    {
        let h = self.inuse_fhs.acquire();
        proof {
            assert(old(self).components_wf());
            assert(self.components_wf());
            assert(self.dirs() == old(self).dirs());
            assert(self.files() == old(self).files());
            Self::lemma_wf_preserved(*old(self), *self);
        }
        h
    }

    /// Resolve the path an inode argument names, or refuse the request:
    /// an inode absent from the registry is reported as not found.
    pub fn resolve_path(&self, ino: u64) -> (r: Result<Vec<Vec<u8>>, FsError>)
        ensures
            match r {
                Ok(p) => self.resolve_spec(ino) == Some(p.deep_view()),
                Err(e) => e == FsError::NotFound && self.resolve_spec(ino) is None,
            },
    {
        match self.inode_map.resolve(ino) {
            Some(p) => Ok(p),
            None => Err(FsError::NotFound),
        }
    }

    /// Conclude a `getattr` from the outcome of the real stat call against
    /// the path `ino` resolved to: on success the translated attributes;
    /// on a not-found failure the stale inode is pruned; any other failure
    /// is passed through untouched.
    pub fn getattr(&mut self, ino: u64, outcome: Result<StatRecord, FsError>) -> (r: Result<
        FileAttrData,
        FsError,
    >)
        requires
            old(self).wf(),
        ensures
            final(self).wf(),
            final(self).dirs() == old(self).dirs(),
            final(self).files() == old(self).files(),
            Self::same_handles(*old(self), *final(self)),
            match outcome {
                Ok(st) => r == Ok::<FileAttrData, FsError>(spec_attr_of_stat(st))
                    && Self::same_inodes(*old(self), *final(self)),
                Err(e) => r == Err::<FileAttrData, FsError>(e) && (if e == FsError::NotFound {
                    Self::inode_forgotten(*old(self), *final(self), ino)
                } else {
                    Self::same_inodes(*old(self), *final(self))
                }),
            },
    {
        match outcome {
            Ok(st) => Ok(stat_to_fileattr(&st)),
            Err(e) => {
                if e == FsError::NotFound {
                    self.inode_map.forget(ino);
                    proof {
                        assert(old(self).components_wf());
                        assert(self.components_wf());
                        assert(self.dirs() == old(self).dirs());
                        assert(self.files() == old(self).files());
                        Self::lemma_wf_preserved(*old(self), *self);
                    }
                }
                Err(e)
            },
        }
    }

    /// Compose the path a `lookup` must stat: the parent's path with
    /// `name` appended. The root parent contributes the empty path.
    pub fn lookup_path(&self, parent: u64, name: &Vec<u8>) -> (r: Result<Vec<Vec<u8>>, FsError>)
        ensures
            match r {
                Ok(p) => {
                    &&& self.resolve_spec(parent) matches Some(q)
                    &&& p.deep_view() == self.resolve_spec(parent)->Some_0.push(name@)
                },
                Err(e) => e == FsError::NotFound && self.resolve_spec(parent) is None,
            },
    {
        match self.inode_map.resolve(parent) {
            Some(mut p) => {
                let component = clone_bytes(name);
                p.push(component);
                proof {
                    assert(p.deep_view() =~~= self.resolve_spec(parent)->Some_0.push(name@));
                }
                Ok(p)
            },
            None => Err(FsError::NotFound),
        }
    }

    /// Conclude a `lookup` from the outcome of the stat against the
    /// composed path: on success, record the entry under the native inode
    /// number the stat reported and reply its translated attributes; on
    /// failure, report the error without mutating the registry.
    pub fn lookup(&mut self, path: Vec<Vec<u8>>, outcome: Result<StatRecord, FsError>) -> (r:
        Result<FileAttrData, FsError>)
        requires
            old(self).wf(),
        ensures
            final(self).wf(),
            final(self).dirs() == old(self).dirs(),
            final(self).files() == old(self).files(),
            Self::same_handles(*old(self), *final(self)),
            match outcome {
                Ok(st) => r == Ok::<FileAttrData, FsError>(spec_attr_of_stat(st)) && forall|
                    k: u64,
                |
                    final(self).resolve_spec(k) == (if k == st.ino && k != ROOT_INODE {
                        Some(path.deep_view())
                    } else {
                        old(self).resolve_spec(k)
                    }),
                Err(e) => r == Err::<FileAttrData, FsError>(e) && Self::same_inodes(
                    *old(self),
                    *final(self),
                ),
            },
    {
        match outcome {
            Ok(st) => {
                let a = stat_to_fileattr(&st);
                self.inode_map.record(st.ino, path);
                proof {
                    assert(old(self).components_wf());
                    assert(self.components_wf());
                    assert(self.dirs() == old(self).dirs());
                    assert(self.files() == old(self).files());
                    Self::lemma_wf_preserved(*old(self), *self);
                }
                Ok(a)
            },
            Err(e) => Err(e),
        }
    }

    /// Conclude an `opendir` from the outcome of opening a directory
    /// stream scoped to the path `ino` resolved to: on success, allocate
    /// the smallest free handle and register the resource under it; on a
    /// not-found failure, prune the stale inode. No handle is allocated on
    /// any failure.
    pub fn opendir(&mut self, ino: u64, outcome: Result<D, FsError>) -> (r: Result<Fh, FsError>)
        requires
            old(self).wf(),
        ensures
            final(self).wf(),
            final(self).files() == old(self).files(),
            match outcome {
                Ok(d) => {
                    &&& r matches Ok(h)
                    &&& !old(self).handle_in_use(r->Ok_0.value())
                    &&& forall|j: u64|
                        j < r->Ok_0.value() ==> old(self).handle_in_use(j)
                    &&& forall|j: u64|
                        final(self).handle_in_use(j) <==> old(self).handle_in_use(j) || j
                            == r->Ok_0.value()
                    &&& final(self).dirs() == old(self).dirs().insert(r->Ok_0.value(), d)
                    &&& Self::same_inodes(*old(self), *final(self))
                },
                Err(e) => {
                    &&& r == Err::<Fh, FsError>(e)
                    &&& final(self).dirs() == old(self).dirs()
                    &&& Self::same_handles(*old(self), *final(self))
                    &&& if e == FsError::NotFound {
                        Self::inode_forgotten(*old(self), *final(self), ino)
                    } else {
                        Self::same_inodes(*old(self), *final(self))
                    }
                },
            },
    {
        match outcome {
            Ok(d) => {
                let h = self.inuse_fhs.acquire();
                proof {
                    assert(self.dirs() == old(self).dirs());
                    assert(self.files() == old(self).files());
                    assert(!old(self).dirs().contains_key(h.value()));
                    assert(!old(self).files().contains_key(h.value()));
                }
                self.open_dirs.open(h, d);
                proof {
                    assert(old(self).components_wf());
                    assert(self.components_wf());
                    assert(self.files() == old(self).files());
                    assert(self.dirs() == old(self).dirs().insert(h.value(), d));
                    assert forall|x: u64| #[trigger] self.dirs().contains_key(x)
                        implies self.handle_in_use(x) by {
                        if x != h.value() {
                            assert(old(self).dirs().contains_key(x));
                            assert(old(self).handle_in_use(x));
                        }
                    }
                    assert forall|x: u64| #[trigger] self.files().contains_key(x)
                        implies self.handle_in_use(x) by {
                        assert(old(self).files().contains_key(x));
                        assert(old(self).handle_in_use(x));
                    }
                    assert forall|x: u64| #[trigger] self.dirs().contains_key(x)
                        implies !self.files().contains_key(x) by {
                        if x != h.value() {
                            assert(old(self).dirs().contains_key(x));
                            assert(!old(self).files().contains_key(x));
                        } else {
                            assert(!old(self).files().contains_key(x));
                        }
                    }
                }
                Ok(h)
            },
            Err(e) => {
                if e == FsError::NotFound {
                    self.inode_map.forget(ino);
                    proof {
                        assert(old(self).components_wf());
                        assert(self.components_wf());
                        assert(self.dirs() == old(self).dirs());
                        assert(self.files() == old(self).files());
                        Self::lemma_wf_preserved(*old(self), *self);
                    }
                }
                Err(e)
            },
        }
    }

    /// Fetch the directory resource a `readdir` names. A negative offset
    /// is refused as an invalid argument before any registry is consulted;
    /// a handle with no registered directory is a bad descriptor.
    pub fn readdir_dir(&self, fh: u64, offset: i64) -> (r: Result<&D, FsError>)
        ensures
            match r {
                Ok(d) => 0 <= offset && self.dirs().contains_key(fh) && *d == self.dirs()[fh],
                Err(e) => if offset < 0 {
                    e == FsError::InvalidArgument
                } else {
                    e == FsError::BadHandle && !self.dirs().contains_key(fh)
                },
            },
    {
        if offset < 0 {
            return Err(FsError::InvalidArgument);
        }
        match self.open_dirs.get(Fh::from_value(fh)) {
            Some(d) => Ok(d),
            None => Err(FsError::BadHandle),
        }
    }

    /// Conclude a `releasedir`: drop the handle's directory resource (the
    /// caller disposes of it, closing the underlying descriptors) and
    /// return the handle to the allocator. Missing bookkeeping is reported
    /// in the result, never a failure: release must stay safe to repeat.
    pub fn releasedir(&mut self, fh: u64) -> (r: (Option<D>, bool))
        requires
            old(self).wf(),
        ensures
            !old(self).files().contains_key(fh) ==> final(self).wf(),
            final(self).dirs() == old(self).dirs().remove(fh),
            final(self).files() == old(self).files(),
            Self::same_inodes(*old(self), *final(self)),
            forall|j: u64|
                final(self).handle_in_use(j) <==> old(self).handle_in_use(j) && j != fh,
            match r.0 {
                Some(d) => old(self).dirs().contains_key(fh) && d == old(self).dirs()[fh],
                None => !old(self).dirs().contains_key(fh),
            },
            r.1 == old(self).handle_in_use(fh),
    {
        let handle = Fh::from_value(fh);
        let resource = self.open_dirs.close(handle);
        let present = self.inuse_fhs.release(handle);
        proof {
            assert(old(self).components_wf());
            assert(self.components_wf());
            assert(self.dirs() == old(self).dirs().remove(fh));
            assert(self.files() == old(self).files());
            if !old(self).files().contains_key(fh) {
                assert forall|x: u64| #[trigger] self.dirs().contains_key(x)
                    implies self.handle_in_use(x) by {
                    assert(old(self).dirs().contains_key(x));
                    assert(old(self).handle_in_use(x));
                    assert(x != fh);
                }
                assert forall|x: u64| #[trigger] self.files().contains_key(x)
                    implies self.handle_in_use(x) by {
                    assert(old(self).files().contains_key(x));
                    assert(old(self).handle_in_use(x));
                    assert(x != fh);
                }
                assert forall|x: u64| #[trigger] self.dirs().contains_key(x)
                    implies !self.files().contains_key(x) by {
                    assert(old(self).dirs().contains_key(x));
                    assert(!old(self).files().contains_key(x));
                }
            }
        }
        (resource, present)
    }

    /// Refuse an `open` whose flags request create, truncate or append
    /// semantics, then resolve the inode's path for the real open call.
    /// The flags are checked first: a refused open allocates nothing and
    /// touches no registry.
    pub fn open_check(&self, ino: u64, flags: i32) -> (r: Result<Vec<Vec<u8>>, FsError>)
        ensures
            match r {
                Ok(p) => flags & WRITE_FLAGS_MASK == 0 && self.resolve_spec(ino) == Some(
                    p.deep_view(),
                ),
                Err(e) => if flags & WRITE_FLAGS_MASK != 0 {
                    e == FsError::ReadOnly
                } else {
                    e == FsError::NotFound && self.resolve_spec(ino) is None
                },
            },
    {
        if flags & WRITE_FLAGS_MASK != 0 {
            return Err(FsError::ReadOnly);
        }
        self.resolve_path(ino)
    }

    /// Conclude an `open` from the outcome of opening the real file
    /// read-only: on success, allocate the smallest free handle and
    /// register the file under it; on a not-found failure, prune the stale
    /// inode. No handle is allocated on any failure.
    pub fn open(&mut self, ino: u64, outcome: Result<F, FsError>) -> (r: Result<Fh, FsError>)
        requires
            old(self).wf(),
        ensures
            final(self).wf(),
            final(self).dirs() == old(self).dirs(),
            match outcome {
                Ok(f) => {
                    &&& r matches Ok(h)
                    &&& !old(self).handle_in_use(r->Ok_0.value())
                    &&& forall|j: u64|
                        j < r->Ok_0.value() ==> old(self).handle_in_use(j)
                    &&& forall|j: u64|
                        final(self).handle_in_use(j) <==> old(self).handle_in_use(j) || j
                            == r->Ok_0.value()
                    &&& final(self).files() == old(self).files().insert(r->Ok_0.value(), f)
                    &&& Self::same_inodes(*old(self), *final(self))
                },
                Err(e) => {
                    &&& r == Err::<Fh, FsError>(e)
                    &&& final(self).files() == old(self).files()
                    &&& Self::same_handles(*old(self), *final(self))
                    &&& if e == FsError::NotFound {
                        Self::inode_forgotten(*old(self), *final(self), ino)
                    } else {
                        Self::same_inodes(*old(self), *final(self))
                    }
                },
            },
    {
        match outcome {
            Ok(f) => {
                let h = self.inuse_fhs.acquire();
                proof {
                    assert(self.dirs() == old(self).dirs());
                    assert(self.files() == old(self).files());
                    assert(!old(self).dirs().contains_key(h.value()));
                    assert(!old(self).files().contains_key(h.value()));
                }
                self.open_files.open(h, f);
                proof {
                    assert(old(self).components_wf());
                    assert(self.components_wf());
                    assert(self.dirs() == old(self).dirs());
                    assert(self.files() == old(self).files().insert(h.value(), f));
                    assert forall|x: u64| #[trigger] self.files().contains_key(x)
                        implies self.handle_in_use(x) by {
                        if x != h.value() {
                            assert(old(self).files().contains_key(x));
                            assert(old(self).handle_in_use(x));
                        }
                    }
                    assert forall|x: u64| #[trigger] self.dirs().contains_key(x)
                        implies self.handle_in_use(x) by {
                        assert(old(self).dirs().contains_key(x));
                        assert(old(self).handle_in_use(x));
                    }
                    assert forall|x: u64| #[trigger] self.dirs().contains_key(x)
                        implies !self.files().contains_key(x) by {
                        assert(old(self).dirs().contains_key(x));
                        assert(old(self).handle_in_use(x));
                        assert(x != h.value());
                        assert(!old(self).files().contains_key(x));
                    }
                }
                Ok(h)
            },
            Err(e) => {
                if e == FsError::NotFound {
                    self.inode_map.forget(ino);
                    proof {
                        assert(old(self).components_wf());
                        assert(self.components_wf());
                        assert(self.dirs() == old(self).dirs());
                        assert(self.files() == old(self).files());
                        Self::lemma_wf_preserved(*old(self), *self);
                    }
                }
                Err(e)
            },
        }
    }

    /// Fetch the file resource a `read` names. A negative offset is
    /// refused as an invalid argument before any registry is consulted; a
    /// handle with no registered file is a bad descriptor.
    pub fn read_file(&self, fh: u64, offset: i64) -> (r: Result<&F, FsError>)
        ensures
            match r {
                Ok(f) => 0 <= offset && self.files().contains_key(fh) && *f == self.files()[fh],
                Err(e) => if offset < 0 {
                    e == FsError::InvalidArgument
                } else {
                    e == FsError::BadHandle && !self.files().contains_key(fh)
                },
            },
    {
        if offset < 0 {
            return Err(FsError::InvalidArgument);
        }
        match self.open_files.get(Fh::from_value(fh)) {
            Some(f) => Ok(f),
            None => Err(FsError::BadHandle),
        }
    }

    /// Conclude a `release`: drop the handle's file resource and return
    /// the handle to the allocator, with the same never-failing
    /// bookkeeping as `releasedir`.
    pub fn release(&mut self, fh: u64) -> (r: (Option<F>, bool))
        requires
            old(self).wf(),
        ensures
            !old(self).dirs().contains_key(fh) ==> final(self).wf(),
            final(self).files() == old(self).files().remove(fh),
            final(self).dirs() == old(self).dirs(),
            Self::same_inodes(*old(self), *final(self)),
            forall|j: u64|
                final(self).handle_in_use(j) <==> old(self).handle_in_use(j) && j != fh,
            match r.0 {
                Some(f) => old(self).files().contains_key(fh) && f == old(self).files()[fh],
                None => !old(self).files().contains_key(fh),
            },
            r.1 == old(self).handle_in_use(fh),
    {
        let handle = Fh::from_value(fh);
        let resource = self.open_files.close(handle);
        let present = self.inuse_fhs.release(handle);
        proof {
            assert(old(self).components_wf());
            assert(self.components_wf());
            assert(self.files() == old(self).files().remove(fh));
            assert(self.dirs() == old(self).dirs());
            if !old(self).dirs().contains_key(fh) {
                assert forall|x: u64| #[trigger] self.files().contains_key(x)
                    implies self.handle_in_use(x) by {
                    assert(old(self).files().contains_key(x));
                    assert(old(self).handle_in_use(x));
                    assert(x != fh);
                }
                assert forall|x: u64| #[trigger] self.dirs().contains_key(x)
                    implies self.handle_in_use(x) by {
                    assert(old(self).dirs().contains_key(x));
                    assert(old(self).handle_in_use(x));
                    assert(x != fh);
                }
                assert forall|x: u64| #[trigger] self.dirs().contains_key(x)
                    implies !self.files().contains_key(x) by {
                    assert(old(self).dirs().contains_key(x));
                    assert(!old(self).files().contains_key(x));
                }
            }
        }
        (resource, present)
    }

    /// `create` writes: always refused, read-only filesystem, no state
    /// touched.
    pub fn create(&self) -> (e: FsError)
        ensures
            e == FsError::ReadOnly,
    {
        FsError::ReadOnly
    }

    /// `setattr` writes: always refused, read-only filesystem, no state
    /// touched.
    pub fn setattr(&self) -> (e: FsError)
        ensures
            e == FsError::ReadOnly,
    {
        FsError::ReadOnly
    }

    /// `setxattr` writes: always refused, read-only filesystem, no state
    /// touched.
    pub fn setxattr(&self) -> (e: FsError)
        ensures
            e == FsError::ReadOnly,
    {
        FsError::ReadOnly
    }

    /// Volume statistics: deliberately not exposed, always refused, no
    /// state touched.
    pub fn statfs(&self) -> (e: FsError)
        ensures
            e == FsError::Unsupported,
    {
        FsError::Unsupported
    }
}

/// One record of a `readdir` reply: the entry's own native inode number
/// (from its per-entry re-stat, not the parent's), its kind, and its name.
pub struct DirEntryData {
    pub ino: u64,
    pub kind: FileKind,
    pub name: Vec<u8>,
}

/// Build a `readdir` reply record from an entry's re-stat and its name.
/// Directory listings carry no file-status data, so the stat is what
/// supplies the real inode number and the kind.
pub fn readdir_entry(st: &StatRecord, name: Vec<u8>) -> (e: DirEntryData)
    ensures
        e.ino == st.ino,
        e.kind == spec_kind_of_mode(st.mode),
        e.name@ == name@,
{
    DirEntryData { ino: st.ino, kind: kind_of_mode(st.mode), name }
}

} // verus!
