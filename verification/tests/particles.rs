//! The particle spawner: straight-down short-lived sprites from the top
//! edge, drawn within the declared ranges, and steering behaviour of the
//! movement system while accelerating.

use ld49::command::Command;
use ld49::component::{Player, Transform, Velocity};
use ld49::math::{vec2_normalized, Vec2Fx, UNIT};
use ld49::resource::{DeltaTime, GameState, GameWindowSize, Key, KeyboardEvent};
use ld49::system::particle_spawner_system::ParticleSpawnerSystem;
use ld49::system::player_movement_system::PlayerMovementSystem;
use ld49::world::World;

#[test]
fn particle_spawner_draws_within_its_ranges() {
    let mut w = World::new();
    let e = w.entities.create();
    w.game_state = GameState::GameStatePlay { player_entity: e };
    w.window_size = GameWindowSize(1000, 500);
    w.delta_time = DeltaTime(20);
    let mut sys = ParticleSpawnerSystem::default();
    sys.run(&mut w);

    assert_eq!(w.lazy.len(), 4);
    let speed = match w.lazy.get(1) {
        Command::InsertVelocity(_, v) => {
            assert_eq!(v.direction, Vec2Fx { x: 0, y: -UNIT });
            assert!(5 * UNIT <= v.speed && v.speed < 10 * UNIT);
            v.speed
        },
        _ => panic!("second queued command must be the velocity"),
    };
    match w.lazy.get(0) {
        Command::InsertTransform(_, t) => {
            assert!(-500 * UNIT <= t.position.x && t.position.x < 500 * UNIT);
            assert_eq!(t.position.y, 500 * UNIT);
            assert_eq!(t.scale, Vec2Fx { x: 2 * UNIT, y: 2 * UNIT });
        },
        _ => panic!("first queued command must be the transform"),
    }
    match w.lazy.get(3) {
        Command::InsertLifetime(_, l) => assert_eq!(l.remaining, 10 * speed),
        _ => panic!("fourth queued command must be the lifetime"),
    }

    // Outside play nothing spawns and the clock stands still.
    let mut w2 = World::new();
    w2.delta_time = DeltaTime(20);
    let mut sys2 = ParticleSpawnerSystem::default();
    sys2.run(&mut w2);
    assert_eq!(w2.lazy.len(), 0);
    assert_eq!(sys2.spawn_clock, 0);
}

#[test]
fn accelerating_forward_blends_heading_toward_facing() {
    let mut w = World::new();
    let p = w.entities.create();
    w.players.insert(p, Player::default());
    let mut t = Transform::default();
    // Face a quarter turn left: the facing vector points along the
    // negative horizontal axis.
    t.rotation = 1_570_796;
    w.transforms.insert(p, t);
    w.velocities.insert(p, Velocity::default());
    let mut movement = PlayerMovementSystem::new(&mut w);
    w.delta_time = DeltaTime(100);

    w.keyboard_events.append(KeyboardEvent::Pressed(Key::W));
    for _ in 0..5 {
        movement.run(&mut w);
    }
    let dir = w.velocities.get(p).unwrap().direction;
    // Half a second of forward acceleration has pulled the heading away
    // from straight up toward the facing direction.
    assert!(dir.x < -300_000);
    assert!(dir.y < UNIT);
}

#[test]
fn normalization_handles_negative_components() {
    let left = vec2_normalized(-UNIT, 0);
    assert_eq!(left, Vec2Fx { x: -UNIT, y: 0 });
    let down_left = vec2_normalized(-UNIT, -UNIT);
    assert_eq!(down_left.x, down_left.y);
    assert!(-707_107 <= down_left.x && down_left.x <= -707_104);
}
