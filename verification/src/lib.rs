//! Rules engine for a ball-merge arcade game.
//!
//! Balls of increasing tier fall into a bounded well; two touching balls of
//! the same tier merge into the next tier and award score. The run ends when
//! balls pile above a danger line for a full grace period, and is won when a
//! merge produces the terminal tier. This crate holds the game's rules: the
//! tier table, the merge/collision resolution, the score curve, the
//! danger-zone timer, and the mode transitions. Physics, rendering and input
//! stay with an external engine.

pub mod danger;
pub mod effects;
mod rng;
pub mod score;
pub mod settings;
pub mod variant;
pub mod world;
