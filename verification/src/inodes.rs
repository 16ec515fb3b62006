//! The inode registry: the mapping from the opaque inode numbers the
//! protocol speaks of to the real relative path each one was observed at.
//! Inode 1 is reserved for the source root and always resolves to the
//! empty path; every other entry is created by a successful lookup and
//! removed only when a later operation discovers the path is gone.

use std::collections::HashMap;
use vstd::prelude::*;

use crate::paths::clone_path;

verus! {

broadcast use vstd::std_specs::hash::group_hash_axioms;

/// The inode number reserved for the source root.
pub const ROOT_INODE: u64 = 1;

/// Maps inode numbers to the relative path each was last observed at.
pub struct InodeRegistry {
    map: HashMap<u64, Vec<Vec<u8>>>,
}

impl InodeRegistry {
    /// The root inode is never stored: it resolves structurally.
    pub closed spec fn wf(self) -> bool {
        !self.map@.contains_key(ROOT_INODE)
    }

    /// What the registry resolves `ino` to: the empty path for the root
    /// inode, the recorded path for a live entry, nothing otherwise.
    pub closed spec fn spec_resolve(self, ino: u64) -> Option<Seq<Seq<u8>>> {
        if ino == ROOT_INODE {
            Some(Seq::<Seq<u8>>::empty())
        } else if self.map@.contains_key(ino) {
            Some(self.map@[ino].deep_view())
        } else {
            None
        }
    }

    /// A fresh registry: only the root inode resolves.
    pub fn new() -> (r: InodeRegistry)
        ensures
            r.wf(),
            r.spec_resolve(ROOT_INODE) == Some(Seq::<Seq<u8>>::empty()),
            forall|ino: u64| ino != ROOT_INODE ==> r.spec_resolve(ino) is None,
    {
        InodeRegistry { map: HashMap::new() }
    }

    /// Read-only lookup of the path an inode maps to.
    pub fn resolve(&self, ino: u64) -> (r: Option<Vec<Vec<u8>>>)
        ensures
            match r {
                Some(p) => self.spec_resolve(ino) == Some(p.deep_view()),
                None => self.spec_resolve(ino) is None,
            },
            ino == ROOT_INODE ==> (r matches Some(p) && p@.len() == 0),
    {
        if ino == ROOT_INODE {
            let empty: Vec<Vec<u8>> = Vec::new();
            proof {
                assert(empty.deep_view() =~= Seq::<Seq<u8>>::empty());
            }
            Some(empty)
        } else {
            match self.map.get(&ino) {
                Some(p) => Some(clone_path(p)),
                None => None,
            }
        }
    }

    /// Insert or overwrite a mapping, after a successful real-filesystem
    /// lookup reported `ino` as the native inode number of `path`. The
    /// reserved root inode is never overwritten. Infallible.
    pub fn record(&mut self, ino: u64, path: Vec<Vec<u8>>)
        requires
            old(self).wf(),
        ensures
            final(self).wf(),
            forall|k: u64|
                final(self).spec_resolve(k) == (if k == ino && k != ROOT_INODE {
                    Some(path.deep_view())
                } else {
                    old(self).spec_resolve(k)
                }),
    {
        if ino != ROOT_INODE {
            self.map.insert(ino, path);
        }
    }

    /// Remove an entry, after an operation against `ino` discovered the
    /// underlying path no longer exists. The root inode is never removed.
    /// Infallible.
    pub fn forget(&mut self, ino: u64)
        requires
            old(self).wf(),
        ensures
            final(self).wf(),
            forall|k: u64|
                final(self).spec_resolve(k) == (if k == ino && k != ROOT_INODE {
                    None::<Seq<Seq<u8>>>
                } else {
                    old(self).spec_resolve(k)
                }),
    {
        if ino != ROOT_INODE {
            self.map.remove(&ino);
        }
    }
}

/// Root identity: whatever was looked up or forgotten before, inode 1
/// resolves to the empty (root) path in every registry state.
pub proof fn lemma_root_identity(r: InodeRegistry)
    ensures
        r.spec_resolve(ROOT_INODE) == Some(Seq::<Seq<u8>>::empty()),
{
}

/// Pruning: once an operation that found the path gone has removed `ino`
/// (the state relation `forget` ensures), resolving `ino` again reports
/// nothing — so a later request is refused without another real
/// filesystem call.
pub proof fn lemma_pruned_stays_not_found(
    before: InodeRegistry,
    after: InodeRegistry,
    ino: u64,
)
    requires
        ino != ROOT_INODE,
        forall|k: u64|
            after.spec_resolve(k) == (if k == ino && k != ROOT_INODE {
                None::<Seq<Seq<u8>>>
            } else {
                before.spec_resolve(k)
            }),
    ensures
        after.spec_resolve(ino) is None,
{
    assert(after.spec_resolve(ino) == None::<Seq<Seq<u8>>>);
}

} // verus!
