//! An owning registry of attached items, addressed by generational handles. A handle outlives
//! the item it named without harm: resolving it then yields nothing.
use vstd::prelude::*;

use crate::spring::MAX_VALUE;

verus! {

/// What the selection reads of an attached item: its horizontal offset from the selection's
/// right side and its horizontal advance.
#[derive(Clone, Copy, Debug, PartialEq, Eq)]
pub struct Attached {
    pub offset: i64,
    pub advance: i64,
}

/// A non-owning reference to an item of a `Registry`.
#[derive(Clone, Copy, Debug, PartialEq, Eq)]
pub struct Handle {
    pub index: usize,
    pub generation: u64,
}

/// One place of the registry: the item it holds, if any, and how many items it has lost.
#[derive(Clone, Copy, Debug, PartialEq, Eq)]
pub struct Slot {
    pub generation: u64,
    pub item: Option<Attached>,
}

/// Owner of the attached items.
pub struct Registry {
    pub slots: Vec<Slot>,
}

impl Attached {
    /// Both lengths lie within the range of positions.
    pub open spec fn wf(self) -> bool {
        -MAX_VALUE <= self.offset <= MAX_VALUE && -MAX_VALUE <= self.advance <= MAX_VALUE
    }
}

impl Registry {
    /// Every item that the registry holds is well-formed.
    pub open spec fn wf(self) -> bool {
        forall|i: int| 0 <= i < self.slots@.len() ==> ((#[trigger] self.slots@[i]).item matches Some(a) ==> a.wf())
    }

    /// The item that `h` names, if it is still there.
    pub open spec fn resolve_spec(self, h: Handle) -> Option<Attached> {
        if h.index < self.slots@.len() && self.slots@[h.index as int].generation == h.generation {
            self.slots@[h.index as int].item
        } else {
            None
        }
    }

    /// An empty registry.
    pub fn new() -> (r: Registry)
        ensures
            r.wf(),
            r.slots@.len() == 0,
    {
        Registry { slots: Vec::new() }
    }

    /// Adds an item and returns its handle.
    pub fn insert(&mut self, item: Attached) -> (h: Handle)
        requires
            old(self).wf(),
            item.wf(),
        ensures
            final(self).wf(),
            final(self).resolve_spec(h) == Some(item),
            forall|g: Handle| #[trigger] old(self).resolve_spec(g) is Some ==> final(self).resolve_spec(g) == old(self).resolve_spec(g),
            final(self).slots@ == old(self).slots@.push(Slot { generation: 0, item: Some(item) }),
    {
        let index = self.slots.len();
        self.slots.push(Slot { generation: 0, item: Some(item) });
        Handle { index, generation: 0 }
    }

    /// Drops the item that `h` names, if it is still there, and says whether it was. Every
    /// handle of it then resolves to nothing; the other items stay.
    pub fn remove(&mut self, h: Handle) -> (removed: bool)
        requires
            old(self).wf(),
        ensures
            final(self).wf(),
            removed == (old(self).resolve_spec(h) is Some),
            final(self).resolve_spec(h) is None,
            forall|g: Handle| g.index != h.index ==> #[trigger] final(self).resolve_spec(g) == old(self).resolve_spec(g),
    {
        if h.index < self.slots.len() && self.slots[h.index].generation == h.generation {
            let removed = self.slots[h.index].item.is_some();
            let generation = if h.generation < u64::MAX { h.generation + 1 } else { h.generation };
            self.slots.set(h.index, Slot { generation, item: None });
            removed
        } else {
            false
        }
    }

    /// The item that `h` names, if it is still there.
    pub fn resolve(&self, h: Handle) -> (r: Option<Attached>)
        requires
            self.wf(),
        ensures
            r == self.resolve_spec(h),
            r matches Some(a) ==> a.wf(),
    {
        if h.index < self.slots.len() && self.slots[h.index].generation == h.generation {
            self.slots[h.index].item
        } else {
            None
        }
    }
}

} // verus!
