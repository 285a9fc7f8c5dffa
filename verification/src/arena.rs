//! Generational arena of inode records: the single ownership point for all
//! filesystem node data.
//!
//! Every cross-reference between nodes (a descriptor's inode, a symlink
//! target, a directory entry) is an [`Inode`]: a slot index paired with the
//! generation the slot had when the reference was issued.  A reference whose
//! generation no longer matches the slot is stale and is detected by every
//! lookup instead of aliasing a recycled record.

use vstd::prelude::*;
use crate::inode::InodeVal;

verus! {

/// Arena-issued reference to one inode record.
#[derive(Clone, Copy, Debug, PartialEq, Eq, Structural)]
pub struct Inode {
    pub index: usize,
    pub generation: u64,
}

struct Slot {
    generation: u64,
    value: InodeVal,
}

/// The store of inode records.  No record is ever removed by the operations
/// here, so issued references stay live for the lifetime of the arena; the
/// generation check still rejects references that were never issued.
pub struct InodeArena {
    slots: Vec<Slot>,
}

impl InodeArena {
    /// How many records the arena holds.
    pub closed spec fn slot_count(self) -> nat {
        self.slots@.len()
    }

    /// Whether `i` is a live reference: its slot exists and still carries the
    /// generation the reference was issued with.
    pub closed spec fn valid(self, i: Inode) -> bool {
        i.index < self.slots@.len() && self.slots@[i.index as int].generation == i.generation
    }

    /// The record a live reference points at.
    pub closed spec fn value_of(self, i: Inode) -> InodeVal {
        self.slots@[i.index as int].value
    }

    /// An empty arena, in which no reference is live.
    pub fn new() -> (r: InodeArena)
        ensures
            r.slot_count() == 0,
            forall|i: Inode| !r.valid(i),
    {
        InodeArena { slots: Vec::new() }
    }

    /// Store a record and issue the reference to it.  Every reference that
    /// was live before stays live and keeps its record; the new reference is
    /// distinct from all of them.
    pub fn insert(&mut self, value: InodeVal) -> (r: Inode)
        ensures
            r.index == old(self).slot_count(),
            final(self).slot_count() == old(self).slot_count() + 1,
            final(self).valid(r),
            final(self).value_of(r) == value,
            forall|j: Inode|
                #[trigger] old(self).valid(j) ==> final(self).valid(j) && final(self).value_of(j)
                    == old(self).value_of(j),
            forall|j: Inode| #[trigger] final(self).valid(j) ==> old(self).valid(j) || j == r,
    {
        let index = self.slots.len();
        self.slots.push(Slot { generation: 0, value });
        Inode { index, generation: 0 }
    }

    /// Checked lookup: the record behind `i`, or `None` when the reference
    /// is stale.
    pub fn get(&self, i: Inode) -> (r: Option<&InodeVal>)
        ensures
            match r {
                Some(v) => self.valid(i) && *v == self.value_of(i),
                None => !self.valid(i),
            },
    {
        if i.index < self.slots.len() {
            let slot = &self.slots[i.index];
            if slot.generation == i.generation {
                Some(&slot.value)
            } else {
                None
            }
        } else {
            None
        }
    }

    /// Exclusive access to the record behind a reference the caller knows to
    /// be live; use [`InodeArena::get`] when staleness must be tolerated.
    /// Which references are live does not change, and no other record does.
    pub fn get_mut(&mut self, i: Inode) -> (r: &mut InodeVal)
        requires
            old(self).valid(i),
        ensures
            *r == old(self).value_of(i),
            final(self).slot_count() == old(self).slot_count(),
            forall|j: Inode| #[trigger] final(self).valid(j) == old(self).valid(j),
            final(self).value_of(i) == *final(r),
            forall|j: Inode|
                j.index != i.index && #[trigger] old(self).valid(j) ==> final(self).value_of(j)
                    == old(self).value_of(j),
    {
        &mut self.slots[i.index].value
    }
}

} // verus!
