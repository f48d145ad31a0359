//! The connection registry: which handle answers to which connection id.

use crate::frame::Handle;
use vstd::hash_map::StringHashMap;
use vstd::prelude::*;

verus! {

/// Maps connection ids to outbound handles. Several ids may name one handle:
/// a connection answers to its generated id and to every alias it claimed.
pub struct Registry {
    entries: StringHashMap<Handle>,
}

impl View for Registry {
    type V = Map<Seq<char>, Handle>;

    closed spec fn view(&self) -> Map<Seq<char>, Handle> {
        self.entries@
    }
}

impl Registry {
    /// A registry without entries.
    pub fn new() -> (registry: Registry)
        ensures
            registry@ == Map::<Seq<char>, Handle>::empty(),
    {
        Registry { entries: StringHashMap::new() }
    }

    /// Binds `id` to `handle`, replacing any earlier binding of `id`.
    pub fn put(&mut self, id: String, handle: Handle)
        ensures
            final(self)@ == old(self)@.insert(id@, handle),
    {
        self.entries.insert(id, handle);
    }

    /// The handle bound to `id`, if any.
    pub fn get(&self, id: &str) -> (found: Option<Handle>)
        ensures
            found == lookup(self@, id@),
    {
        match self.entries.get(id) {
            Some(handle) => Some(*handle),
            None => None,
        }
    }

    /// Removes the binding of `id`; without one the registry stays as it is.
    pub fn remove(&mut self, id: &str)
        ensures
            final(self)@ == old(self)@.remove(id@),
    {
        self.entries.remove(id);
    }

    /// How many ids are bound.
    pub fn len(&self) -> (count: usize)
        ensures
            count == self@.len(),
    {
        self.entries.len()
    }
}

/// The handle that a registry binds to `id`, if any.
pub open spec fn lookup(registry: Map<Seq<char>, Handle>, id: Seq<char>) -> Option<Handle> {
    if registry.contains_key(id) {
        Some(registry[id])
    } else {
        None
    }
}

} // verus!
