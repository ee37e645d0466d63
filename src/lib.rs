//! Directional sprite animation and combat lifecycle for animated actors.
//!
//! The library decides which frame of which sprite sheet an actor shows, when
//! frames advance, how movement and gameplay events switch animation states,
//! and how a depleted actor plays its death animation before it is removed.
//! Quantities that a game engine keeps as floats are held here as integers:
//! velocities and positions in thousandths of a world unit, durations in
//! nanoseconds.
pub mod direction;
pub mod driver;
pub mod frames;
pub mod lifecycle;
pub mod state;
pub mod table;
pub mod timer;
pub mod uis;
pub mod world;
