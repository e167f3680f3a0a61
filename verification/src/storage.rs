//! Typed, entity-indexed component storage. Each slot holds at most one
//! component together with the generation of the entity that owns it, so a
//! lookup with a stale identifier misses instead of reading a successor's
//! data. Iteration is by slot index, in a fixed order that is stable as
//! long as the storage is not mutated.

use vstd::prelude::*;

use crate::entity::Entity;
use vstd::pervasive::VecAdditionalExecFns;

verus! {

/// Component store for one component type: one optional `(generation,
/// component)` entry per entity slot.
pub struct Storage<C> {
    slots: Vec<Option<(u64, C)>>,
}

impl<C> Storage<C> {
    /// The component associated with `e`, if `e`'s slot holds one under
    /// `e`'s generation.
    pub closed spec fn spec_get(self, e: Entity) -> Option<C> {
        if e.index < self.slots@.len() {
            match self.slots@[e.index as int] {
                Some((g, c)) => if g == e.generation {
                    Some(c)
                } else {
                    None
                },
                None => None,
            }
        } else {
            None
        }
    }

    /// The entry stored at slot `i`, as the owning entity and its component.
    pub closed spec fn spec_entry_at(self, i: int) -> Option<(Entity, C)> {
        match self.slots@[i] {
            Some((g, c)) => Some((Entity { index: i as usize, generation: g }, c)),
            None => None,
        }
    }

    /// Number of slots; the bound for iteration by index.
    pub closed spec fn spec_slot_count(self) -> nat {
        self.slots@.len()
    }

    /// An empty storage: no entity holds a component.
    pub fn new() -> (r: Storage<C>)
        ensures
            forall|e: Entity| r.spec_get(e) == None::<C>,
            r.spec_slot_count() == 0,
    {
        Storage { slots: Vec::new() }
    }

    /// Number of slots.
    pub fn slot_count(&self) -> (n: usize)
        ensures
            n == self.spec_slot_count(),
    {
        self.slots.len()
    }

    /// Associate `c` with `e`, replacing whatever `e`'s slot held. Every
    /// other slot is untouched; an identifier of the same slot under a
    /// different generation now finds nothing.
    pub fn insert(&mut self, e: Entity, c: C)
        requires
            e.index < usize::MAX,
        ensures
            final(self).spec_get(e) == Some(c),
            final(self).spec_entry_at(e.index as int) == Some((e, c)),
            forall|e2: Entity|
                e2.index != e.index ==> final(self).spec_get(e2) == old(self).spec_get(e2),
            forall|e2: Entity|
                e2.index == e.index && e2.generation != e.generation ==> final(self).spec_get(e2)
                    == None::<C>,
            forall|i: int|
                0 <= i < old(self).spec_slot_count() && i != e.index
                    ==> final(self).spec_entry_at(i) == old(self).spec_entry_at(i),
            forall|i: int|
                old(self).spec_slot_count() <= i < final(self).spec_slot_count() && i != e.index
                    ==> final(self).spec_entry_at(i) == None::<(Entity, C)>,
            final(self).spec_slot_count()
                == if e.index < old(self).spec_slot_count() {
                    old(self).spec_slot_count()
                } else {
                    (e.index + 1) as nat
                },
    {
        while self.slots.len() <= e.index
            invariant
                e.index < usize::MAX,
                forall|e2: Entity| self.spec_get(e2) == old(self).spec_get(e2),
                forall|i: int|
                    0 <= i < old(self).spec_slot_count() ==> self.spec_entry_at(i) == old(
                        self,
                    ).spec_entry_at(i),
                forall|i: int|
                    old(self).spec_slot_count() <= i < self.spec_slot_count()
                        ==> self.slots@[i] is None,
                self.spec_slot_count() >= old(self).spec_slot_count(),
                old(self).spec_slot_count() <= e.index ==> self.spec_slot_count() <= e.index + 1,
                old(self).spec_slot_count() > e.index ==> self.spec_slot_count() == old(
                    self,
                ).spec_slot_count(),
            decreases e.index + 1 - self.slots.len(),
        {
            self.slots.push(None);
        }
        self.slots.set(e.index, Some((e.generation, c)));
    }

    /// Fetch the component of `e`, if any, by reference.
    pub fn get(&self, e: Entity) -> (r: Option<&C>)
        ensures
            match r {
                Some(c) => self.spec_get(e) == Some(*c),
                None => self.spec_get(e) == None::<C>,
            },
    {
        if e.index < self.slots.len() {
            match &self.slots[e.index] {
                Some((g, c)) => if *g == e.generation {
                    Some(c)
                } else {
                    None
                },
                None => None,
            }
        } else {
            None
        }
    }

    /// Remove and return the component of `e`, if any. Entries of other
    /// entities — including same-slot identifiers of other generations —
    /// are untouched.
    pub fn remove(&mut self, e: Entity) -> (r: Option<C>)
        ensures
            r == old(self).spec_get(e),
            final(self).spec_get(e) == None::<C>,
            forall|e2: Entity| e2 != e ==> final(self).spec_get(e2) == old(self).spec_get(e2),
            final(self).spec_slot_count() == old(self).spec_slot_count(),
            forall|i: int|
                0 <= i < final(self).spec_slot_count() && i != e.index
                    ==> final(self).spec_entry_at(i) == old(self).spec_entry_at(i),
    {
        if e.index < self.slots.len() {
            let matches_gen = match &self.slots[e.index] {
                Some((g, _)) => *g == e.generation,
                None => false,
            };
            if matches_gen {
                let mut taken: Option<(u64, C)> = None;
                self.slots.set_and_swap(e.index, &mut taken);
                match taken {
                    Some((_, c)) => Some(c),
                    None => None,
                }
            } else {
                None
            }
        } else {
            None
        }
    }

    /// The entry at slot `i`: the owning entity and its component.
    pub fn entry_at(&self, i: usize) -> (r: Option<(Entity, &C)>)
        requires
            i < self.spec_slot_count(),
        ensures
            match r {
                Some((e, c)) => self.spec_entry_at(i as int) == Some((e, *c)) && e.index == i
                    && self.spec_get(e) == Some(*c),
                None => self.spec_entry_at(i as int) == None::<(Entity, C)>,
            },
    {
        match &self.slots[i] {
            Some((g, c)) => Some((Entity { index: i, generation: *g }, c)),
            None => None,
        }
    }

    /// A slot entry is owned by the entity with that slot index, and lookup
    /// of that entity returns the entry's component.
    pub proof fn lemma_entry_index(self, i: int)
        requires
            0 <= i < self.spec_slot_count(),
            self.spec_slot_count() <= usize::MAX,
        ensures
            match self.spec_entry_at(i) {
                Some((e, c)) => e.index == i && self.spec_get(e) == Some(c),
                None => true,
            },
    {
    }

    /// Lookup agrees with iteration: an entity whose lookup succeeds owns
    /// the entry at its own slot.
    pub proof fn lemma_get_entry(self, e: Entity)
        requires
            self.spec_get(e) is Some,
        ensures
            match self.spec_get(e) {
                Some(c) => self.spec_entry_at(e.index as int) == Some((e, c)),
                None => true,
            },
    {
    }

}

} // verus!
