//! Animation and facing logic for a sprite-sheet player character.
//!
//! The engine owns scheduling, input polling, rendering and entity storage;
//! this library holds the decisions that the per-frame systems make: which
//! compass heading a movement vector points to, which frame range and timer
//! period apply in each animation state, how the frame index advances, and
//! which slice of the sprite sheet is shown.

pub mod heading;
pub mod animation;
pub mod player;
pub mod resources;
pub mod systems;
