//! Gameplay core of an arcade brick-breaking game.
//!
//! The library binds logical game entities (walls, ball, paddle, bricks) to a
//! rigid-body physics simulation through a compact collider tag, classifies
//! contact events back into game semantics, and drives scoring and atomic
//! entity destruction from those events.  The physics engine itself, the
//! renderer and input polling are outside collaborators: the library models
//! the data they exchange (handles, tags, fixed-point positions, contact
//! events) as plain values and verifies every rule that acts on them.

pub mod factory;
pub mod model;
pub mod paddle;
pub mod resolver;
pub mod scoreboard;
pub mod session;
pub mod setup;
pub mod tag;
pub mod units;
