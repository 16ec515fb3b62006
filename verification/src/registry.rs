//! The open-resource registries: directory and file registries are
//! structurally identical, so one generic registry maps an allocated
//! handle to the live resource needed to service later operations on it.
//! The resource type is opaque to the registry.

use std::collections::HashMap;
use vstd::prelude::*;

use crate::handles::Fh;

verus! {

broadcast use vstd::std_specs::hash::group_hash_axioms;

/// Maps handle values to live resources between an open-style call and
/// the matching release-style call, which between them exclusively own
/// the resource.
pub struct OpenRegistry<R> {
    map: HashMap<u64, R>,
}

impl<R> OpenRegistry<R> {
    /// The registered resources, by handle value.
    pub closed spec fn spec_map(self) -> Map<u64, R> {
        self.map@
    }

    /// An empty registry.
    pub fn new() -> (r: Self)
        ensures
            r.spec_map() == Map::<u64, R>::empty(),
    {
        OpenRegistry { map: HashMap::new() }
    }

    /// Associate a freshly allocated handle with its resource. Always
    /// succeeds: the handle is guaranteed fresh by construction.
    pub fn open(&mut self, fh: Fh, resource: R)
        requires
            !old(self).spec_map().contains_key(fh.value()),
        ensures
            final(self).spec_map() == old(self).spec_map().insert(fh.value(), resource),
    {
        self.map.insert(fh.value(), resource);
    }

    /// The resource a handle names, if any; absence is a bad-descriptor
    /// condition for the caller, never a panic.
    pub fn get(&self, fh: Fh) -> (r: Option<&R>)
        ensures
            match r {
                Some(resource) => self.spec_map().contains_key(fh.value()) && *resource
                    == self.spec_map()[fh.value()],
                None => !self.spec_map().contains_key(fh.value()),
            },
    {
        self.map.get(&fh.value())
    }

    /// Remove and return the resource for final disposal; closing what it
    /// holds is the caller's side of the bargain.
    pub fn close(&mut self, fh: Fh) -> (r: Option<R>)
        ensures
            final(self).spec_map() == old(self).spec_map().remove(fh.value()),
            match r {
                Some(resource) => old(self).spec_map().contains_key(fh.value()) && resource
                    == old(self).spec_map()[fh.value()],
                None => !old(self).spec_map().contains_key(fh.value()),
            },
    {
        self.map.remove(&fh.value())
    }
}

} // verus!
