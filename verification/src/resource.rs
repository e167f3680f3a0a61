//! Singleton resources: shared state not tied to any entity. The input
//! layer writes the tick duration and appends window and keyboard events;
//! the renderer reads the scene state and the window size.

use vstd::prelude::*;

use crate::entity::Entity;

verus! {

/// Upper bound on one tick's duration, in milliseconds: at most one second,
/// which keeps every per-tick integration step within its representation.
pub const DT_LIMIT_MS: u64 = 1000;

/// Duration of the upcoming simulation tick, in milliseconds.
#[derive(Clone, Copy, Debug, PartialEq, Eq, Structural)]
pub struct DeltaTime(pub u64);

impl DeltaTime {
    /// A tick lasts at most `DT_LIMIT_MS`.
    pub open spec fn wf(self) -> bool {
        self.0 <= DT_LIMIT_MS
    }
}

impl Default for DeltaTime {
    /// A zero-length tick.
    fn default() -> (r: DeltaTime)
        ensures
            r.0 == 0,
            r.wf(),
    {
        DeltaTime(0)
    }
}

/// Window events fed into the core by the window layer.
#[derive(Clone, Copy, Debug, PartialEq, Eq, Structural)]
pub enum WindowEvent {
    /// The viewport changed to the given width and height, logical pixels.
    Resize(u32, u32),
}

/// The keys that carry gameplay meaning, plus a catch-all for every other
/// physical key, which the core ignores.
#[derive(Clone, Copy, Debug, PartialEq, Eq, Structural)]
pub enum Key {
    /// Confirm: starts a round from the init or end screen.
    Return,
    /// Accelerate.
    W,
    /// Rotate left.
    A,
    /// Brake / reverse accelerate.
    S,
    /// Rotate right.
    D,
    /// Any key without gameplay meaning.
    Other,
}

/// Keyboard transitions fed into the core by the input layer.
#[derive(Clone, Copy, Debug, PartialEq, Eq, Structural)]
pub enum KeyboardEvent {
    Pressed(Key),
    Released(Key),
}

/// The game-state machine: init screen, a running round with the player
/// entity in the payload, and the end screen.
#[derive(Clone, Copy, Debug, PartialEq, Eq, Structural)]
pub enum GameState {
    GameStateInit {},
    GameStatePlay { player_entity: Entity },
    GameStateEnd {},
}

impl Default for GameState {
    /// The machine starts on the init screen.
    fn default() -> (r: GameState)
        ensures
            r == (GameState::GameStateInit {}),
    {
        GameState::GameStateInit {}
    }
}

/// Current viewport size in logical pixels, updated from resize events.
#[derive(Clone, Copy, Debug, PartialEq, Eq, Structural)]
pub struct GameWindowSize(pub u32, pub u32);

impl Default for GameWindowSize {
    /// No viewport yet.
    fn default() -> (r: GameWindowSize)
        ensures
            r.0 == 0 && r.1 == 0,
    {
        GameWindowSize(0, 0)
    }
}

/// Scene state derived for the renderer each tick: which background frame
/// to show and the player's health normalized to `[0, UNIT]` micro-units.
#[derive(Clone, Copy, Debug, PartialEq, Eq, Structural)]
pub struct GameStateForRenderer {
    /// Player health normalized to `[0, UNIT]`.
    pub player_health: i64,
    /// Background frame index.
    pub background_idx: u32,
}

impl Default for GameStateForRenderer {
    /// Zero health shown, first background frame.
    fn default() -> (r: GameStateForRenderer)
        ensures
            r.player_health == 0,
            r.background_idx == 0,
    {
        GameStateForRenderer { player_health: 0, background_idx: 0 }
    }
}

} // verus!
