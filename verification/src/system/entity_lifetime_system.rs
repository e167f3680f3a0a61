//! Lifetime expiry: each tick, every remaining time-to-live shrinks by the
//! tick duration, and entities whose lifetime crosses zero are queued for
//! deletion, to be removed at the tick's synchronization point.

use vstd::prelude::*;

use crate::command::Command;
use crate::component::{Lifetime, LIFETIME_LIMIT};
use crate::entity::Entity;
use crate::world::{lemma_unique_component_slot, World};

verus! {

/// A lifetime after one tick of `dt` milliseconds: the remaining
/// micro-seconds drop by `1000 * dt`, saturating at the representation's
/// lower bound.
pub open spec fn spec_decayed(l: Lifetime, dt: u64) -> Lifetime {
    Lifetime {
        remaining: if l.remaining - 1000 * dt < -LIFETIME_LIMIT {
            (-LIFETIME_LIMIT) as i64
        } else {
            (l.remaining - 1000 * dt) as i64
        },
    }
}

/// The lifetime of `e` after the first `i` lifetime slots of `w0` have
/// been decremented.
pub open spec fn spec_lifetimes_decayed(w0: World, i: int, e: Entity) -> Option<Lifetime>
    decreases i,
{
    if i <= 0 {
        w0.lifetimes.spec_get(e)
    } else {
        let prev = spec_lifetimes_decayed(w0, i - 1, e);
        match w0.lifetimes.spec_entry_at(i - 1) {
            Some((le, l)) => if le == e {
                Some(spec_decayed(l, w0.delta_time.0))
            } else {
                prev
            },
            None => prev,
        }
    }
}

/// The deletions queued by the first `i` lifetime slots: one delete for
/// each entity whose decremented lifetime is zero or below, in slot order.
pub open spec fn spec_expiry_cmds(w0: World, i: int) -> Seq<Command>
    decreases i,
{
    if i <= 0 {
        Seq::<Command>::empty()
    } else {
        spec_expiry_cmds(w0, i - 1) + match w0.lifetimes.spec_entry_at(i - 1) {
            Some((le, l)) => if spec_decayed(l, w0.delta_time.0).remaining <= 0 {
                seq![Command::DeleteEntity(le)]
            } else {
                Seq::<Command>::empty()
            },
            None => Seq::<Command>::empty(),
        }
    }
}

/// Lifetime slots at or beyond `i` have not acted yet.
proof fn lemma_decayed_untouched(w0: World, i: int, e: Entity)
    requires
        0 <= i,
        i <= e.index,
        i <= w0.lifetimes.spec_slot_count(),
        w0.lifetimes.spec_slot_count() <= usize::MAX,
    ensures
        spec_lifetimes_decayed(w0, i, e) == w0.lifetimes.spec_get(e),
    decreases i,
{
    if i > 0 {
        w0.lifetimes.lemma_entry_index(i - 1);
        lemma_decayed_untouched(w0, i - 1, e);
    }
}

/// The expiry law, one half of the lifetime guarantee: an entity whose
/// lifetime crosses zero under this tick's decrement has its deletion
/// among the commands the lifetime pass queues — so, by the deferred
/// buffer's delete guarantee, it is gone at the tick's synchronization
/// point. (The scenario with concrete numbers lives in the test suite.)
pub proof fn lemma_expired_delete_queued(w0: World, i: int, n: int, e: Entity, l: Lifetime)
    requires
        0 <= i < n <= w0.lifetimes.spec_slot_count(),
        w0.lifetimes.spec_entry_at(i) == Some((e, l)),
        spec_decayed(l, w0.delta_time.0).remaining <= 0,
    ensures
        spec_expiry_cmds(w0, n).contains(Command::DeleteEntity(e)),
    decreases n,
{
    if n == i + 1 {
        let prefix = spec_expiry_cmds(w0, i);
        assert(spec_expiry_cmds(w0, n) == prefix + seq![Command::DeleteEntity(e)]);
        assert(spec_expiry_cmds(w0, n)[prefix.len() as int] == Command::DeleteEntity(e));
    } else {
        lemma_expired_delete_queued(w0, i, n - 1, e, l);
        let shorter = spec_expiry_cmds(w0, n - 1);
        let k = choose|k: int| 0 <= k < shorter.len() && shorter[k] == Command::DeleteEntity(e);
        assert(spec_expiry_cmds(w0, n)[k] == Command::DeleteEntity(e));
    }
}

/// Counts every entity's remaining time to live down and queues expired
/// entities for deletion at the synchronization point.
#[derive(Default)]
pub struct EntityLifetimeSystem {}

/// What one lifetime pass does, as a relation between the world before
/// (`w0`) and after (`w1`); `EntityLifetimeSystem::run` ensures exactly
/// this.
pub open spec fn spec_entity_lifetime_step(w0: World, w1: World) -> bool {
    &&& w1.inv()
    &&& forall|e: Entity|
            (#[trigger] w1.lifetimes.spec_get(e)) == spec_lifetimes_decayed(
                w0,
                w0.lifetimes.spec_slot_count() as int,
                e,
            )
    &&& w1.lazy.spec_commands() == w0.lazy.spec_commands() + spec_expiry_cmds(
            w0,
            w0.lifetimes.spec_slot_count() as int,
        )
    &&& w1.entities == w0.entities
    &&& w1.transforms == w0.transforms
    &&& w1.velocities == w0.velocities
    &&& w1.displays == w0.displays
    &&& w1.players == w0.players
    &&& w1.colliders == w0.colliders
    &&& w1.spinners == w0.spinners
    &&& w1.delta_time == w0.delta_time
    &&& w1.window_size == w0.window_size
    &&& w1.game_state == w0.game_state
    &&& w1.scene_state == w0.scene_state
    &&& w1.keyboard_events == w0.keyboard_events
    &&& w1.window_events == w0.window_events
}

impl EntityLifetimeSystem {
    /// Decrement every lifetime by the tick duration; entities whose
    /// lifetime reaches zero or below are queued for deletion, in storage
    /// order, so they are gone by the end of the tick. Nothing else in the
    /// world changes.
    pub fn run(&mut self, w: &mut World)
        requires
            old(w).inv(),
        ensures
            spec_entity_lifetime_step(*old(w), *final(w)),
    {
        let n = w.lifetimes.slot_count();
        let dt = w.delta_time.0;
        let mut i: usize = 0;
        while i < n
            invariant
                w.inv(),
                old(w).inv(),
                n == w.lifetimes.spec_slot_count(),
                n == old(w).lifetimes.spec_slot_count(),
                dt == old(w).delta_time.0,
                0 <= i <= n,
                forall|e: Entity|
                    (#[trigger] w.lifetimes.spec_get(e)) == spec_lifetimes_decayed(
                        *old(w),
                        i as int,
                        e,
                    ),
                forall|j: int|
                    i <= j < n ==> (#[trigger] w.lifetimes.spec_entry_at(j)) == old(
                        w,
                    ).lifetimes.spec_entry_at(j),
                w.lazy.spec_commands() == old(w).lazy.spec_commands() + spec_expiry_cmds(
                    *old(w),
                    i as int,
                ),
                w.entities == old(w).entities,
                w.transforms == old(w).transforms,
                w.velocities == old(w).velocities,
                w.displays == old(w).displays,
                w.players == old(w).players,
                w.colliders == old(w).colliders,
                w.spinners == old(w).spinners,
                w.delta_time == old(w).delta_time,
                w.window_size == old(w).window_size,
                w.game_state == old(w).game_state,
                w.scene_state == old(w).scene_state,
                w.keyboard_events == old(w).keyboard_events,
                w.window_events == old(w).window_events,
            decreases n - i,
        {
            match w.lifetimes.entry_at(i) {
                Some((le, l_ref)) => {
                    let l = *l_ref;
                    proof {
                        lemma_decayed_untouched(*old(w), i as int, le);
                        assert(old(w).lifetimes.spec_get(le) == Some(l));
                        old(w).lifetimes.lemma_get_entry(le);
                        assert(old(w).lifetimes.spec_entry_at(i as int) == Some((le, l)));
                    }
                    let dec: i64 = 1000 * (dt as i64);
                    let rem: i64 = if l.remaining - dec < -LIFETIME_LIMIT {
                        -LIFETIME_LIMIT
                    } else {
                        l.remaining - dec
                    };
                    proof {
                        lemma_unique_component_slot(*w, le);
                    }
                    w.lifetimes.insert(le, Lifetime { remaining: rem });
                    if rem <= 0 {
                        w.lazy.push(Command::DeleteEntity(le));
                    }
                    proof {
                        assert(w.lazy.spec_commands() =~= old(w).lazy.spec_commands()
                            + spec_expiry_cmds(*old(w), i as int + 1));
                    }
                },
                None => {
                    proof {
                        assert(w.lazy.spec_commands() =~= old(w).lazy.spec_commands()
                            + spec_expiry_cmds(*old(w), i as int + 1));
                    }
                },
            }
            i = i + 1;
        }
    }
}

} // verus!
