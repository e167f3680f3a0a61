//! The render-facing adapter: once per frame it drains the window-event
//! cursor into the window-size resource (ignoring zero-area resizes) and
//! collects one `(sprite, transform)` instance for every entity holding
//! both a transform and a display, for the external renderer to consume.

use vstd::prelude::*;

use crate::entity::Entity;
use crate::events::ReaderId;
use crate::math::Vec2Fx;
use crate::resource::{GameWindowSize, WindowEvent};
use crate::world::World;

verus! {

/// One sprite to draw: the atlas index and the transform parameters the
/// renderer builds its model matrix from.
#[derive(Clone, Copy, Debug, PartialEq, Eq, Structural)]
pub struct SpriteInstance {
    pub sprite_idx: u32,
    pub position: Vec2Fx,
    pub rotation: i64,
    pub scale: Vec2Fx,
}

/// What the core hands the external renderer each frame: the ordered
/// sprite list and the scene state (background frame, normalized player
/// health in micro-units).
pub struct Frame {
    pub instances: Vec<SpriteInstance>,
    pub background_idx: u32,
    pub player_health: i64,
}

/// One window event folded into the window size: a resize with a nonzero
/// area replaces it, a zero-area resize is ignored as malformed.
pub open spec fn spec_size_step(cur: GameWindowSize, e: WindowEvent) -> GameWindowSize {
    match e {
        WindowEvent::Resize(a, b) => if a > 0 && b > 0 {
            GameWindowSize(a, b)
        } else {
            cur
        },
    }
}

/// The window size after a sequence of window events, oldest first.
pub open spec fn spec_size_after(evs: Seq<WindowEvent>, cur: GameWindowSize) -> GameWindowSize
    decreases evs.len(),
{
    if evs.len() == 0 {
        cur
    } else {
        spec_size_step(spec_size_after(evs.drop_last(), cur), evs.last())
    }
}

/// The sprite list over the first `i` transform slots: one instance per
/// entity that also holds a display, in slot order.
pub open spec fn spec_instances(w0: World, i: int) -> Seq<SpriteInstance>
    decreases i,
{
    if i <= 0 {
        Seq::<SpriteInstance>::empty()
    } else {
        spec_instances(w0, i - 1) + match w0.transforms.spec_entry_at(i - 1) {
            Some((e, t)) => match w0.displays.spec_get(e) {
                Some(d) => seq![
                    SpriteInstance {
                        sprite_idx: d.sprite_idx,
                        position: t.position,
                        rotation: t.rotation,
                        scale: t.scale,
                    },
                ],
                None => Seq::<SpriteInstance>::empty(),
            },
            None => Seq::<SpriteInstance>::empty(),
        }
    }
}

/// Adapts the world to the external renderer.
pub struct RenderSystem {
    /// Cursor into the window event log, registered at setup.
    pub reader: ReaderId,
}

impl RenderSystem {
    /// Set up the adapter on a world: register its window-event cursor.
    pub fn new(w: &mut World) -> (s: RenderSystem)
        requires
            old(w).inv(),
            old(w).window_events.spec_reader_count() < usize::MAX,
        ensures
            final(w).inv(),
            s.reader.spec_id() == old(w).window_events.spec_reader_count(),
            final(w).window_events.spec_reader_count() == old(w).window_events.spec_reader_count()
                + 1,
            final(w).window_events.spec_events() == old(w).window_events.spec_events(),
            final(w).window_events.spec_cursor(s.reader.spec_id())
                == final(w).window_events.spec_events().len(),
            forall|r2: nat|
                r2 < old(w).window_events.spec_reader_count() ==> #[trigger] final(w).window_events.spec_cursor(r2) == old(w).window_events.spec_cursor(r2),
            final(w).entities == old(w).entities,
            final(w).transforms == old(w).transforms,
            final(w).velocities == old(w).velocities,
            final(w).displays == old(w).displays,
            final(w).players == old(w).players,
            final(w).colliders == old(w).colliders,
            final(w).lifetimes == old(w).lifetimes,
            final(w).spinners == old(w).spinners,
            final(w).delta_time == old(w).delta_time,
            final(w).window_size == old(w).window_size,
            final(w).game_state == old(w).game_state,
            final(w).scene_state == old(w).scene_state,
            final(w).keyboard_events == old(w).keyboard_events,
            final(w).lazy == old(w).lazy,
    {
        let reader = w.window_events.register_reader();
        RenderSystem { reader }
    }

    /// One frame: drain this system's window-event cursor and fold the
    /// resizes into the window-size resource (zero-area resizes ignored),
    /// then collect one sprite instance per entity holding both a
    /// transform and a display, in storage order, together with the scene
    /// state. Nothing else in the world changes.
    pub fn run(&mut self, w: &mut World) -> (frame: Frame)
        requires
            old(w).inv(),
            old(self).reader.spec_id() < old(w).window_events.spec_reader_count(),
        ensures
            final(w).inv(),
            final(self).reader == old(self).reader,
            final(w).window_size == spec_size_after(
                old(w).window_events.spec_pending(old(self).reader.spec_id()),
                old(w).window_size,
            ),
            frame.instances@ == spec_instances(
                *old(w),
                old(w).transforms.spec_slot_count() as int,
            ),
            frame.background_idx == old(w).scene_state.background_idx,
            frame.player_health == old(w).scene_state.player_health,
            final(w).window_events.spec_events() == old(w).window_events.spec_events(),
            final(w).window_events.spec_reader_count() == old(w).window_events.spec_reader_count(),
            final(w).window_events.spec_cursor(old(self).reader.spec_id())
                == final(w).window_events.spec_events().len(),
            forall|r2: nat|
                r2 < old(w).window_events.spec_reader_count() && r2 != old(self).reader.spec_id()
                    ==> #[trigger] final(w).window_events.spec_cursor(r2) == old(w).window_events.spec_cursor(r2),
            final(w).entities == old(w).entities,
            final(w).transforms == old(w).transforms,
            final(w).velocities == old(w).velocities,
            final(w).displays == old(w).displays,
            final(w).players == old(w).players,
            final(w).colliders == old(w).colliders,
            final(w).lifetimes == old(w).lifetimes,
            final(w).spinners == old(w).spinners,
            final(w).delta_time == old(w).delta_time,
            final(w).game_state == old(w).game_state,
            final(w).scene_state == old(w).scene_state,
            final(w).keyboard_events == old(w).keyboard_events,
            final(w).lazy == old(w).lazy,
    {
        let ghost pending = old(w).window_events.spec_pending(self.reader.spec_id());
        let events = w.window_events.read(self.reader);
        let m = events.len();
        let mut size = w.window_size;
        let mut j: usize = 0;
        while j < m
            invariant
                m == events.len(),
                events@ == pending,
                0 <= j <= m,
                size == spec_size_after(pending.subrange(0, j as int), old(w).window_size),
            decreases m - j,
        {
            proof {
                assert(pending.subrange(0, j as int + 1).drop_last() =~= pending.subrange(
                    0,
                    j as int,
                ));
            }
            match events[j] {
                WindowEvent::Resize(a, b) => {
                    if a > 0 && b > 0 {
                        size = GameWindowSize(a, b);
                    }
                },
            }
            j = j + 1;
        }
        proof {
            assert(pending.subrange(0, m as int) =~= pending);
        }
        w.window_size = size;

        let n = w.transforms.slot_count();
        let mut instances: Vec<SpriteInstance> = Vec::new();
        let mut i: usize = 0;
        while i < n
            invariant
                n == w.transforms.spec_slot_count(),
                0 <= i <= n,
                w.transforms == old(w).transforms,
                w.displays == old(w).displays,
                instances@ == spec_instances(*old(w), i as int),
            decreases n - i,
        {
            match w.transforms.entry_at(i) {
                Some((e, t_ref)) => {
                    let t = *t_ref;
                    match w.displays.get(e) {
                        Some(d_ref) => {
                            let d = *d_ref;
                            instances.push(
                                SpriteInstance {
                                    sprite_idx: d.sprite_idx,
                                    position: t.position,
                                    rotation: t.rotation,
                                    scale: t.scale,
                                },
                            );
                            proof {
                                assert(instances@ =~= spec_instances(*old(w), i as int + 1));
                            }
                        },
                        None => {
                            proof {
                                assert(instances@ =~= spec_instances(*old(w), i as int + 1));
                            }
                        },
                    }
                },
                None => {
                    proof {
                        assert(instances@ =~= spec_instances(*old(w), i as int + 1));
                    }
                },
            }
            i = i + 1;
        }
        let background_idx = w.scene_state.background_idx;
        let player_health = w.scene_state.player_health;
        Frame { instances, background_idx, player_health }
    }
}

} // verus!
