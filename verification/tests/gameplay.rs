//! Gameplay scenarios: lifetime expiry, the init/play/end state machine,
//! collision damage and healing, and input-driven movement.

use ld49::command::Command;
use ld49::component::{Collider, ColliderTag, Display, Lifetime, Player, Spinner, Transform,
    Velocity, HEALTH_MAX};
use ld49::math::{Vec2Fx, TAU_URAD, UNIT};
use ld49::resource::{DeltaTime, GameState, GameWindowSize, Key, KeyboardEvent};
use ld49::game::App;
use ld49::system::asteroid_spawner_system::AsteroidSpawnerSystem;
use ld49::system::entity_lifetime_system::EntityLifetimeSystem;
use ld49::system::entity_spinner_system::EntitySpinnerSystem;
use ld49::system::game_manager_system::GameManagerSystem;
use ld49::system::player_bounds_enforcer_system::PlayerBoundsEnforcerSystem;
use ld49::system::player_collision_system::PlayerCollisionSystem;
use ld49::system::player_movement_system::{PlayerMovementSystem, MAX_PLAYER_SPEED};
use ld49::system::BackgroundAnimatorSystem;
use ld49::system::VelocityApplicatorSystem;
use ld49::world::World;

#[test]
fn lifetime_expires_within_the_tick_that_crosses_zero() {
    let mut w = World::new();
    let doomed = w.entities.create();
    // 0.1 seconds left, with a 0.2 second tick: gone by the end of it.
    w.lifetimes.insert(doomed, Lifetime { remaining: 100_000 });
    let survivor = w.entities.create();
    // 5.0 seconds left: survives with 4.8 seconds remaining.
    w.lifetimes.insert(survivor, Lifetime { remaining: 5_000_000 });
    w.delta_time = DeltaTime(200);

    let mut sys = EntityLifetimeSystem::default();
    sys.run(&mut w);
    w.maintain();

    assert!(!w.entities.is_live(doomed));
    assert!(w.lifetimes.get(doomed).is_none());
    assert!(w.entities.is_live(survivor));
    assert_eq!(w.lifetimes.get(survivor), Some(&Lifetime { remaining: 4_800_000 }));
}

#[test]
fn state_machine_runs_init_play_end_init() {
    let mut app = match App::new() {
        Ok(a) => a,
        Err(_) => panic!("the static schedule must build"),
    };
    assert!(matches!(app.world.game_state, GameState::GameStateInit {}));

    // A confirm press starts a round with a fresh, fully-equipped player.
    app.on_keyboard_event(KeyboardEvent::Pressed(Key::Return));
    app.on_update(20);
    let player_entity = match app.world.game_state {
        GameState::GameStatePlay { player_entity } => player_entity,
        _ => panic!("confirm on the init screen must start a round"),
    };
    assert!(app.world.entities.is_live(player_entity));
    // The player materializes at the sync point with full health; the
    // drain starts on the next tick, once the round is in play.
    assert_eq!(app.world.players.get(player_entity), Some(&Player { health: HEALTH_MAX }));
    assert_eq!(app.world.transforms.get(player_entity), Some(&Transform::default()));
    assert_eq!(app.world.velocities.get(player_entity), Some(&Velocity::default()));
    assert_eq!(
        app.world.colliders.get(player_entity),
        Some(&Collider::new(ColliderTag::Player))
    );

    // Attrition at 4.8 health per second drives the round to the end
    // screen and removes the player.
    let mut guard: u32 = 0;
    while matches!(app.world.game_state, GameState::GameStatePlay { .. }) {
        app.on_update(1000);
        guard += 1;
        assert!(guard < 40, "health must reach zero within 21 seconds");
    }
    assert!(matches!(app.world.game_state, GameState::GameStateEnd {}));
    assert!(!app.world.entities.is_live(player_entity));
    assert!(app.world.players.get(player_entity).is_none());

    // A confirm press on the end screen returns to the init screen.
    app.on_keyboard_event(KeyboardEvent::Pressed(Key::Return));
    app.on_update(20);
    assert!(matches!(app.world.game_state, GameState::GameStateInit {}));
}

#[test]
fn play_with_vanished_player_degrades_to_end() {
    let mut w = World::new();
    let ghost = w.entities.create();
    w.lazy.push(Command::DeleteEntity(ghost));
    w.maintain();
    w.game_state = GameState::GameStatePlay { player_entity: ghost };
    let mut manager = GameManagerSystem::new(&mut w);
    manager.run(&mut w);
    assert!(matches!(w.game_state, GameState::GameStateEnd {}));
}

fn world_with_player(health: i64) -> (World, ld49::entity::Entity) {
    let mut w = World::new();
    let p = w.entities.create();
    w.players.insert(p, Player { health });
    w.transforms.insert(p, Transform::default());
    w.colliders.insert(p, Collider::new(ColliderTag::Player));
    (w, p)
}

#[test]
fn asteroid_contact_for_one_second_costs_exactly_the_damage_rate() {
    let (mut w, p) = world_with_player(HEALTH_MAX);
    let rock = w.entities.create();
    w.transforms.insert(rock, Transform::default());
    w.colliders.insert(rock, Collider::new(ColliderTag::Asteroid));
    w.delta_time = DeltaTime(1000);

    let mut sys = PlayerCollisionSystem::default();
    sys.run(&mut w);

    // Fifty health per second of contact, for a 1.0 second tick.
    assert_eq!(w.players.get(p), Some(&Player { health: HEALTH_MAX - 50_000_000 }));

    // Damage clamps at zero rather than going negative.
    let mut w2 = w;
    w2.players.insert(p, Player { health: 10_000_000 });
    let mut sys2 = PlayerCollisionSystem::default();
    sys2.run(&mut w2);
    assert_eq!(w2.players.get(p), Some(&Player { health: 0 }));
}

#[test]
fn health_pack_heals_clamped_and_is_consumed() {
    let (mut w, p) = world_with_player(90_000_000);
    let pack = w.entities.create();
    w.transforms.insert(pack, Transform::default());
    w.colliders.insert(pack, Collider::new(ColliderTag::Health));
    w.delta_time = DeltaTime(1000);

    let mut sys = PlayerCollisionSystem::default();
    sys.run(&mut w);

    // The heal amount would overshoot full health: clamped to full.
    assert_eq!(w.players.get(p), Some(&Player { health: HEALTH_MAX }));
    // The pack is queued for deletion and gone at the sync point.
    w.maintain();
    assert!(!w.entities.is_live(pack));
    assert!(w.colliders.get(pack).is_none());
}

#[test]
fn identical_collider_values_do_not_skip_distinct_entities() {
    // Two entities with equal collider values at the same spot: identity,
    // not value, decides self-exclusion, so the asteroid still hits.
    let (mut w, p) = world_with_player(HEALTH_MAX);
    let rock = w.entities.create();
    w.transforms.insert(rock, Transform::default());
    // Same tag-and-box value as the player's collider.
    w.colliders.insert(rock, Collider::new(ColliderTag::Player));
    let rock2 = w.entities.create();
    w.transforms.insert(rock2, Transform::default());
    w.colliders.insert(rock2, Collider::new(ColliderTag::Asteroid));
    w.delta_time = DeltaTime(500);
    let mut sys = PlayerCollisionSystem::default();
    sys.run(&mut w);
    assert_eq!(w.players.get(p), Some(&Player { health: HEALTH_MAX - 25_000_000 }));
}

#[test]
fn holding_accelerate_integrates_speed_to_the_cap() {
    let mut w = World::new();
    let p = w.entities.create();
    w.players.insert(p, Player::default());
    w.transforms.insert(p, Transform::default());
    w.velocities.insert(p, Velocity::default());
    let mut movement = PlayerMovementSystem::new(&mut w);
    w.delta_time = DeltaTime(20);

    w.keyboard_events.append(KeyboardEvent::Pressed(Key::W));
    for _ in 0..10 {
        movement.run(&mut w);
    }
    // speed == ACCEL * T / 1000 with ACCEL 2.5 units/s and T = 200 ms.
    assert_eq!(w.velocities.get(p).unwrap().speed, 2500 * 20 * 10);

    // Long enough and the speed caps at the maximum.
    for _ in 0..250 {
        movement.run(&mut w);
    }
    assert_eq!(w.velocities.get(p).unwrap().speed, MAX_PLAYER_SPEED);

    // Releasing every key holds the speed constant: no friction.
    w.keyboard_events.append(KeyboardEvent::Released(Key::W));
    for _ in 0..5 {
        movement.run(&mut w);
    }
    assert_eq!(w.velocities.get(p).unwrap().speed, MAX_PLAYER_SPEED);
}

#[test]
fn velocity_applicator_moves_by_direction_times_speed() {
    let mut w = World::new();
    let e = w.entities.create();
    w.transforms.insert(e, Transform::default());
    w.velocities.insert(
        e,
        Velocity { direction: Vec2Fx { x: 0, y: -UNIT }, speed: 3 * UNIT },
    );
    let mut sys = VelocityApplicatorSystem::default();
    sys.run(&mut w);
    let t = w.transforms.get(e).unwrap();
    assert_eq!(t.position, Vec2Fx { x: 0, y: -3 * UNIT });
}

#[test]
fn spinner_advances_and_wraps_rotation() {
    let mut w = World::new();
    let e = w.entities.create();
    let mut t = Transform::default();
    t.rotation = TAU_URAD - 1;
    w.transforms.insert(e, t);
    w.spinners.insert(e, Spinner { speed: 1_000_000 });
    w.delta_time = DeltaTime(1000);
    let mut sys = EntitySpinnerSystem::default();
    sys.run(&mut w);
    // One radian advanced from just under a full turn wraps around.
    assert_eq!(w.transforms.get(e).unwrap().rotation, 999_999);
}

#[test]
fn bounds_enforcer_mirrors_heading_and_clamps_position() {
    let mut w = World::new();
    w.window_size = GameWindowSize(100, 100);
    let p = w.entities.create();
    w.players.insert(p, Player::default());
    let mut t = Transform::default();
    t.position = Vec2Fx { x: 60 * UNIT, y: 0 };
    w.transforms.insert(p, t);
    w.velocities.insert(
        p,
        Velocity { direction: Vec2Fx { x: UNIT, y: 0 }, speed: UNIT },
    );
    let mut sys = PlayerBoundsEnforcerSystem::default();
    sys.run(&mut w);
    assert_eq!(w.transforms.get(p).unwrap().position, Vec2Fx { x: 50 * UNIT, y: 0 });
    assert_eq!(w.velocities.get(p).unwrap().direction, Vec2Fx { x: -UNIT, y: 0 });
}

#[test]
fn background_cycles_frames_during_play() {
    let mut w = World::new();
    let e = w.entities.create();
    w.game_state = GameState::GameStatePlay { player_entity: e };
    w.delta_time = DeltaTime(20);
    let mut sys = BackgroundAnimatorSystem::default();
    // The clock is due immediately: first step enters the 2..=4 cycle.
    sys.run(&mut w);
    assert_eq!(w.scene_state.background_idx, 2);
    // 100 ms per frame and a strict expiry test: six 20 ms ticks between
    // steps.
    for _ in 0..6 {
        sys.run(&mut w);
    }
    assert_eq!(w.scene_state.background_idx, 3);
    for _ in 0..6 {
        sys.run(&mut w);
    }
    assert_eq!(w.scene_state.background_idx, 4);
    for _ in 0..6 {
        sys.run(&mut w);
    }
    assert_eq!(w.scene_state.background_idx, 2);

    // The init and end screens pin their frames.
    w.game_state = GameState::GameStateInit {};
    sys.run(&mut w);
    assert_eq!(w.scene_state.background_idx, 0);
    w.game_state = GameState::GameStateEnd {};
    sys.run(&mut w);
    assert_eq!(w.scene_state.background_idx, 1);
}

#[test]
fn asteroid_spawner_draws_within_its_ranges() {
    let mut w = World::new();
    let e = w.entities.create();
    w.game_state = GameState::GameStatePlay { player_entity: e };
    w.window_size = GameWindowSize(1280, 720);
    w.delta_time = DeltaTime(20);
    let mut sys = AsteroidSpawnerSystem::default();
    sys.run(&mut w);

    assert_eq!(w.lazy.len(), 6);
    let speed = match w.lazy.get(1) {
        Command::InsertVelocity(_, v) => {
            assert!(UNIT <= v.speed && v.speed < 5 * UNIT);
            // The heading points essentially straight down, tilted by at
            // most a tenth of a unit before normalization.
            assert!(v.direction.y < -900_000);
            assert!(v.direction.x.abs() <= 110_000);
            v.speed
        },
        _ => panic!("second queued command must be the velocity"),
    };
    match w.lazy.get(0) {
        Command::InsertTransform(_, t) => {
            assert!(-640 * UNIT <= t.position.x && t.position.x < 640 * UNIT);
            assert_eq!(t.position.y, 720 * UNIT);
            // Faster rocks are bigger: size is coupled to the speed.
            assert_eq!(t.scale.x, 100 * UNIT - (5 * UNIT - speed) * 10);
            assert_eq!(t.scale.y, t.scale.x);
        },
        _ => panic!("first queued command must be the transform"),
    }
    match w.lazy.get(2) {
        Command::InsertDisplay(_, d) => {
            assert!(2 <= d.sprite_idx && d.sprite_idx <= 4);
        },
        _ => panic!("third queued command must be the display"),
    }
    match w.lazy.get(3) {
        Command::InsertSpinner(_, s) => {
            assert!(100_000 <= s.speed && s.speed < 5 * UNIT);
        },
        _ => panic!("fourth queued command must be the spinner"),
    }
    match w.lazy.get(4) {
        Command::InsertCollider(_, c) => {
            assert_eq!(c.tag, ColliderTag::Asteroid);
        },
        _ => panic!("fifth queued command must be the collider"),
    }
    match w.lazy.get(5) {
        Command::InsertLifetime(_, l) => {
            assert_eq!(l.remaining, 10 * speed);
        },
        _ => panic!("sixth queued command must be the lifetime"),
    }

    // With a zero-area window the spawn is skipped silently.
    let mut w2 = World::new();
    let e2 = w2.entities.create();
    w2.game_state = GameState::GameStatePlay { player_entity: e2 };
    w2.delta_time = DeltaTime(20);
    let mut sys2 = AsteroidSpawnerSystem::default();
    sys2.run(&mut w2);
    assert_eq!(w2.lazy.len(), 0);
}

#[test]
fn scheduled_spawners_and_spinner_act_during_play() {
    let mut app = match App::new() {
        Ok(a) => a,
        Err(_) => panic!("the static schedule must build"),
    };
    // With a viewport in place before the round starts, the spawners'
    // clocks expire on the very tick the round begins: the asteroid
    // (with a spinner and a lifetime) and a particle are queued during
    // that tick and materialized at its sync point.
    app.world.window_size = GameWindowSize(800, 600);
    app.on_keyboard_event(KeyboardEvent::Pressed(Key::Return));
    app.on_update(20);
    assert!(matches!(app.world.game_state, GameState::GameStatePlay { .. }));

    let mut spinners: u32 = 0;
    for i in 0..app.world.spinners.slot_count() {
        if app.world.spinners.entry_at(i).is_some() {
            spinners += 1;
        }
    }
    let mut lifetimes: u32 = 0;
    for i in 0..app.world.lifetimes.slot_count() {
        if app.world.lifetimes.entry_at(i).is_some() {
            lifetimes += 1;
        }
    }
    // One spinner (the asteroid); two lifetimes (asteroid and particle).
    assert_eq!(spinners, 1);
    assert_eq!(lifetimes, 2);
}

#[test]
fn render_pass_applies_resizes_and_lists_sprites() {
    let mut app = match App::new() {
        Ok(a) => a,
        Err(_) => panic!("the static schedule must build"),
    };
    app.on_window_event(ld49::resource::WindowEvent::Resize(1280, 720));
    app.on_keyboard_event(KeyboardEvent::Pressed(Key::Return));
    app.on_update(20);
    let frame = app.on_render();
    assert_eq!(app.world.window_size, GameWindowSize(1280, 720));
    // The player is the only entity with both a transform and a display.
    assert_eq!(frame.instances.len(), 1);
    assert_eq!(frame.instances[0].sprite_idx, 0);
}

#[test]
fn display_component_is_plain_data() {
    let d = Display { sprite_idx: 4 };
    assert_eq!(d.sprite_idx, 4);
    assert_eq!(d, Display { sprite_idx: 4 });
}
