//! The health-pack manager: spawning within the middle third of the
//! window, consumption on player contact, and cleanup on the end screen.

use ld49::command::Command;
use ld49::component::{Collider, ColliderTag, Player, Transform};
use ld49::math::UNIT;
use ld49::resource::{DeltaTime, GameState, GameWindowSize};
use ld49::system::repair_pack_manager_system::RepairPackManagerSystem;
use ld49::world::World;

#[test]
fn expired_clock_spawns_a_tracked_pack_in_the_middle_third() {
    let mut w = World::new();
    let e = w.entities.create();
    w.game_state = GameState::GameStatePlay { player_entity: e };
    w.window_size = GameWindowSize(300, 300);
    w.delta_time = DeltaTime(20);
    let mut sys = RepairPackManagerSystem::default();
    sys.run(&mut w);

    assert_eq!(w.lazy.len(), 3);
    let pack = match w.lazy.get(0) {
        Command::InsertTransform(p, t) => {
            assert!(-100 * UNIT <= t.position.x && t.position.x < 100 * UNIT);
            assert!(-100 * UNIT <= t.position.y && t.position.y < 100 * UNIT);
            assert_eq!(t.scale.x, 40 * UNIT);
            p
        },
        _ => panic!("first queued command must be the transform"),
    };
    match w.lazy.get(2) {
        Command::InsertCollider(p, c) => {
            assert_eq!(p, pack);
            assert_eq!(c.tag, ColliderTag::Health);
        },
        _ => panic!("third queued command must be the collider"),
    }
    assert_eq!(sys.active_entity, Some(pack));
    w.maintain();
    assert!(w.colliders.get(pack).is_some());
}

#[test]
fn player_contact_consumes_the_tracked_pack() {
    let mut w = World::new();
    let player = w.entities.create();
    w.players.insert(player, Player::default());
    w.transforms.insert(player, Transform::default());
    w.colliders.insert(player, Collider::new(ColliderTag::Player));
    let pack = w.entities.create();
    w.transforms.insert(pack, Transform::default());
    w.colliders.insert(pack, Collider::new(ColliderTag::Health));
    w.game_state = GameState::GameStatePlay { player_entity: player };
    w.delta_time = DeltaTime(20);

    let mut sys = RepairPackManagerSystem {
        spawn_timeout: 5000,
        spawn_clock: 5000,
        active_entity: Some(pack),
    };
    sys.run(&mut w);
    assert_eq!(sys.active_entity, None);
    w.maintain();
    assert!(!w.entities.is_live(pack));
}

#[test]
fn end_screen_retires_the_tracked_pack() {
    let mut w = World::new();
    let pack = w.entities.create();
    w.game_state = GameState::GameStateEnd {};
    let mut sys = RepairPackManagerSystem {
        spawn_timeout: 5000,
        spawn_clock: 100,
        active_entity: Some(pack),
    };
    sys.run(&mut w);
    assert_eq!(sys.active_entity, None);
    w.maintain();
    assert!(!w.entities.is_live(pack));
}
