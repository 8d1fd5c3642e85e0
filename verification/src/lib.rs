//! A small entity/component simulation core for a two-paddle ball game.
//!
//! Game objects are fixed-shape records of optional components
//! ([`components::Components`]).  Per-entity rules ([`systems`]) and
//! per-frame rules ([`globalsystems`]) advance the state one tick at a
//! time under the control of a [`world::World`].  All coordinates are
//! fixed-point integers: [`components::SCALE`] units make one world unit,
//! so the playfield spans `[0, 4]` world units horizontally and `[0, 3]`
//! vertically.

pub mod channel;
pub mod components;
pub mod entities;
pub mod globalsystems;
pub mod systems;
pub mod world;
