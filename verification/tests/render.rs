//! The render adapter: the frame lists exactly the entities holding both
//! a transform and a display, and resize events fold into the window
//! size with zero-area resizes ignored.

use ld49::component::{Display, Transform};
use ld49::math::{Vec2Fx, UNIT};
use ld49::resource::{GameWindowSize, WindowEvent};
use ld49::system::render_system::RenderSystem;
use ld49::world::World;

#[test]
fn frame_lists_transform_and_display_entities() {
    let mut w = World::new();
    let mut sys = RenderSystem::new(&mut w);

    let drawn = w.entities.create();
    let mut t = Transform::default();
    t.position = Vec2Fx { x: 3 * UNIT, y: 4 * UNIT };
    w.transforms.insert(drawn, t);
    w.displays.insert(drawn, Display { sprite_idx: 2 });

    // A transform without a display is not drawn.
    let invisible = w.entities.create();
    w.transforms.insert(invisible, Transform::default());

    w.scene_state.background_idx = 3;
    w.scene_state.player_health = UNIT / 2;

    let frame = sys.run(&mut w);
    assert_eq!(frame.instances.len(), 1);
    assert_eq!(frame.instances[0].sprite_idx, 2);
    assert_eq!(frame.instances[0].position, Vec2Fx { x: 3 * UNIT, y: 4 * UNIT });
    assert_eq!(frame.instances[0].scale, Vec2Fx { x: 50 * UNIT, y: 50 * UNIT });
    assert_eq!(frame.background_idx, 3);
    assert_eq!(frame.player_health, UNIT / 2);
}

#[test]
fn resizes_fold_in_order_and_zero_area_is_ignored() {
    let mut w = World::new();
    let mut sys = RenderSystem::new(&mut w);
    w.window_events.append(WindowEvent::Resize(800, 600));
    w.window_events.append(WindowEvent::Resize(0, 500));
    w.window_events.append(WindowEvent::Resize(1024, 768));
    sys.run(&mut w);
    assert_eq!(w.window_size, GameWindowSize(1024, 768));

    // A lone zero-area resize leaves the size untouched.
    w.window_events.append(WindowEvent::Resize(0, 0));
    sys.run(&mut w);
    assert_eq!(w.window_size, GameWindowSize(1024, 768));
}
