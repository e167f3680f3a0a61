//! Entity identities and the arena that mints them. An entity is an index
//! plus a generation; deleting an entity bumps its slot's generation, so a
//! stale identifier fails liveness checks and lookups instead of aliasing a
//! recycled slot.

use vstd::prelude::*;
use vstd::pervasive::VecAdditionalExecFns;

verus! {

/// An opaque entity identifier: slot index plus generation.
#[derive(Clone, Copy, Debug, PartialEq, Eq, Structural, Hash)]
pub struct Entity {
    pub index: usize,
    pub generation: u64,
}

/// The arena of entity slots: a generation per slot, a liveness flag per
/// slot, and a free list of dead slots available for reuse.
pub struct EntityAllocator {
    gens: Vec<u64>,
    alive: Vec<bool>,
    free: Vec<usize>,
}

impl EntityAllocator {
    /// Internal consistency: one generation and one flag per slot, and a
    /// duplicate-free free list of valid, dead, reusable slots.
    pub closed spec fn wf(self) -> bool {
        &&& self.gens@.len() == self.alive@.len()
        &&& self.alive@.len() <= usize::MAX
        &&& self.free@.no_duplicates()
        &&& forall|k: int|
            0 <= k < self.free@.len() ==> (#[trigger] self.free@[k]) < self.alive@.len()
                && !self.alive@[self.free@[k] as int] && self.gens@[self.free@[k] as int] < u64::MAX
    }

    /// Whether `e` names a currently living entity: its slot exists, is
    /// alive, and still carries `e`'s generation.
    pub closed spec fn spec_is_live(self, e: Entity) -> bool {
        &&& e.index < self.alive@.len()
        &&& self.alive@[e.index as int]
        &&& self.gens@[e.index as int] == e.generation
    }

    /// Number of slots ever minted; the arena cannot mint more than
    /// `usize::MAX` of them.
    pub closed spec fn spec_slot_total(self) -> nat {
        self.gens@.len()
    }

    /// Number of slots ever minted.
    pub fn slot_total(&self) -> (n: usize)
        ensures
            n == self.spec_slot_total(),
    {
        self.gens.len()
    }

    /// An empty arena: no slots, nothing live.
    pub fn new() -> (r: EntityAllocator)
        ensures
            r.wf(),
            forall|e: Entity| !r.spec_is_live(e),
            r.spec_slot_total() == 0,
    {
        EntityAllocator { gens: Vec::new(), alive: Vec::new(), free: Vec::new() }
    }

    /// Whether `e` is currently live.
    pub fn is_live(&self, e: Entity) -> (r: bool)
        requires
            self.wf(),
        ensures
            r == self.spec_is_live(e),
    {
        e.index < self.alive.len() && self.alive[e.index] && self.gens[e.index] == e.generation
    }

    /// Mint a new entity, live immediately: a dead slot is reused under a
    /// fresh generation if one is available, else a new slot is appended.
    /// The identifier was not live before the call, and no other entity's
    /// liveness changes.
    pub fn create(&mut self) -> (e: Entity)
        requires
            old(self).wf(),
            old(self).spec_slot_total() < usize::MAX,
        ensures
            final(self).wf(),
            final(self).spec_slot_total() <= old(self).spec_slot_total() + 1,
            e.index < final(self).spec_slot_total(),
            final(self).spec_is_live(e),
            !old(self).spec_is_live(e),
            forall|e2: Entity|
                e2 != e ==> final(self).spec_is_live(e2) == old(self).spec_is_live(e2),
    {
        match self.free.pop() {
            Some(i) => {
                let g = self.gens[i];
                self.alive.set(i, true);
                let e = Entity { index: i, generation: g };
                proof {
                    assert(old(self).free@.drop_last().no_duplicates());
                    assert(forall|k: int|
                        0 <= k < self.free@.len() ==> #[trigger] self.free@[k]
                            != old(self).free@.last());
                }
                e
            },
            None => {
                let i = self.gens.len();
                self.gens.push(0);
                self.alive.push(true);
                Entity { index: i, generation: 0 }
            },
        }
    }

    /// Delete `e` if it is live: the slot's flag is cleared and its
    /// generation bumped, so `e` and any other identifier of that slot stay
    /// dead until the slot is reused. Returns whether anything was deleted;
    /// every other entity's liveness is untouched.
    pub fn delete(&mut self, e: Entity) -> (deleted: bool)
        requires
            old(self).wf(),
        ensures
            final(self).wf(),
            final(self).spec_slot_total() == old(self).spec_slot_total(),
            deleted == old(self).spec_is_live(e),
            !final(self).spec_is_live(e),
            forall|e2: Entity|
                e2 != e ==> final(self).spec_is_live(e2) == old(self).spec_is_live(e2),
    {
        if self.is_live(e) {
            self.alive.set(e.index, false);
            let g = self.gens[e.index];
            if g < u64::MAX - 1 {
                self.gens.set(e.index, g + 1);
                self.free.push(e.index);
                proof {
                    assert(forall|k: int|
                        0 <= k < old(self).free@.len() ==> (#[trigger] old(self).free@[k])
                            != e.index);
                }
            } else if g < u64::MAX {
                // The generation space of this slot is nearly exhausted:
                // retire the slot for good rather than wrap and alias old
                // identifiers.
                self.gens.set(e.index, g + 1);
            }
            true
        } else {
            false
        }
    }

    /// A live identifier indexes an existing slot, so its index is below
    /// `usize::MAX`.
    pub proof fn lemma_live_index_bound(self, e: Entity)
        requires
            self.wf(),
            self.spec_is_live(e),
        ensures
            e.index < usize::MAX,
    {
    }

    /// At most one generation of a slot is live at a time: two live
    /// identifiers with the same index are the same entity.
    pub proof fn lemma_live_same_index(self, e1: Entity, e2: Entity)
        requires
            self.spec_is_live(e1),
            self.spec_is_live(e2),
            e1.index == e2.index,
        ensures
            e1 == e2,
    {
    }
}

} // verus!
