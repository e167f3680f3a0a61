//! Simulation core of a small real-time 2D arcade game: an entity-component
//! runtime (entity arena, typed component storages, multi-reader event log,
//! deferred command buffer, dependency-ordered dispatcher) and the gameplay
//! systems built on top of it (state machine, movement, collision, spawning,
//! lifetime expiry).
//!
//! All continuous quantities are fixed-point integers: world lengths and
//! scalar rates are measured in micro-units (one world unit is `UNIT`
//! micro-units), angles in microradians, and time in milliseconds. The
//! rendering and windowing layers are external collaborators; the core only
//! consumes plain input events and produces a per-frame sprite list.

pub mod aabb;
pub mod command;
pub mod component;
pub mod dispatcher;
pub mod entity;
pub mod events;
pub mod game;
pub mod math;
pub mod resource;
mod rng;
pub mod storage;
pub mod system;
pub mod world;
