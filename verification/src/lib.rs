//! Cursor-driven map interaction core for a grid-based tactics game.
//!
//! A cursor moves over a rectangular tile map one cell per key press,
//! clamped to the map bounds; hovering a cell reveals its terrain and any
//! occupying unit, and a select action picks the hovered unit up into a
//! selection state. Movement and selection inputs are edge-detected: a key
//! held over many ticks fires exactly once, until it is released and
//! pressed again.

pub mod cursor;
pub mod input;
pub mod laws;
pub mod map;
pub mod states;
pub mod systems;
