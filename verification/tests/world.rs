//! The entity arena and the deferred command buffer: queued mutations are
//! invisible to every storage until the synchronization point and fully
//! present immediately after it; deleted identifiers go stale instead of
//! aliasing recycled slots.

use ld49::command::Command;
use ld49::component::{Display, Lifetime, Player, Transform, Velocity};
use ld49::world::World;

#[test]
fn deferred_mutations_invisible_until_maintain_then_present() {
    let mut w = World::new();
    let e = w.entities.create();

    w.lazy.push(Command::InsertTransform(e, Transform::default()));
    w.lazy.push(Command::InsertVelocity(e, Velocity::default()));
    w.lazy.push(Command::InsertDisplay(e, Display { sprite_idx: 7 }));
    w.lazy.push(Command::InsertPlayer(e, Player::default()));

    // Queued during the tick: absent from every storage.
    assert!(w.transforms.get(e).is_none());
    assert!(w.velocities.get(e).is_none());
    assert!(w.displays.get(e).is_none());
    assert!(w.players.get(e).is_none());
    assert_eq!(w.lazy.len(), 4);

    w.maintain();

    // Fully present immediately after the synchronization point.
    assert_eq!(w.transforms.get(e), Some(&Transform::default()));
    assert_eq!(w.velocities.get(e), Some(&Velocity::default()));
    assert_eq!(w.displays.get(e), Some(&Display { sprite_idx: 7 }));
    assert_eq!(w.players.get(e), Some(&Player::default()));
    assert_eq!(w.lazy.len(), 0);
}

#[test]
fn later_insert_wins_and_delete_clears() {
    let mut w = World::new();
    let e = w.entities.create();
    w.lazy.push(Command::InsertLifetime(e, Lifetime { remaining: 1 }));
    w.lazy.push(Command::InsertLifetime(e, Lifetime { remaining: 2 }));
    w.maintain();
    assert_eq!(w.lifetimes.get(e), Some(&Lifetime { remaining: 2 }));

    w.lazy.push(Command::DeleteEntity(e));
    w.maintain();
    assert!(w.lifetimes.get(e).is_none());
    assert!(!w.entities.is_live(e));
}

#[test]
fn insert_for_dead_entity_is_skipped() {
    let mut w = World::new();
    let e = w.entities.create();
    w.lazy.push(Command::DeleteEntity(e));
    w.lazy.push(Command::InsertDisplay(e, Display { sprite_idx: 1 }));
    w.maintain();
    assert!(w.displays.get(e).is_none());
    assert!(!w.entities.is_live(e));
}

#[test]
fn stale_identifier_misses_recycled_slot() {
    let mut w = World::new();
    let first = w.entities.create();
    w.displays.insert(first, Display { sprite_idx: 3 });
    w.lazy.push(Command::DeleteEntity(first));
    w.maintain();

    // The slot is recycled under a new generation.
    let second = w.entities.create();
    assert_eq!(second.index, first.index);
    assert_ne!(second.generation, first.generation);
    w.displays.insert(second, Display { sprite_idx: 9 });

    // The stale identifier fails lookups instead of aliasing.
    assert!(!w.entities.is_live(first));
    assert!(w.displays.get(first).is_none());
    assert_eq!(w.displays.get(second), Some(&Display { sprite_idx: 9 }));
}
