//! Plain-value model of the data exchanged with the physics engine and the
//! entity store: rigid bodies, colliders, game entities and contact events.
//!
//! The physics engine sees none of the game's semantics and the game sees
//! none of the engine's internals; handles and the collider tag are the whole
//! interface.  Positions and velocities are fixed-point integers as laid out
//! in `units`.

use crate::tag::EntityKind;
use vstd::prelude::*;

verus! {

/// Mobility class of a rigid body: immovable, force-driven, or moved
/// directly by game logic.
#[derive(Clone, Copy, PartialEq, Eq, Structural, Debug)]
pub enum Mobility {
    Static,
    Dynamic,
    Kinematic,
}

/// Collider shape; extents in micro-units.
#[derive(Clone, Copy, PartialEq, Eq, Structural, Debug)]
pub enum Shape {
    /// Axis-aligned box given by its half-extents.
    Box { half_x: i64, half_y: i64 },
    /// Circle given by its radius.
    Circle { radius: i64 },
    /// Box with rounded corners, given by half-extents and a corner radius.
    RoundedBox { half_x: i64, half_y: i64, corner: i64 },
}

/// A rigid body of the physics world.  Position and velocity are in
/// micro-units; a kinematic body's position is the target game logic set for
/// it.
#[derive(Clone, Copy, PartialEq, Eq, Structural, Debug)]
pub struct Body {
    pub mobility: Mobility,
    pub x: i64,
    pub y: i64,
    pub vx: i64,
    pub vy: i64,
}

/// A collider of the physics world.  Restitution and friction are in
/// per-mille (1000 stands for a coefficient of one).  The tag is set at
/// creation and never mutated.
#[derive(Clone, Copy, PartialEq, Eq, Structural, Debug)]
pub struct Collider {
    /// Handle of the body the collider is attached to.
    pub parent: u64,
    pub shape: Shape,
    pub restitution: u32,
    pub friction: u32,
    pub tag: u128,
}

/// Kind-specific gameplay state carried by an entity.
#[derive(Clone, Copy, PartialEq, Eq, Structural, Debug)]
pub enum EntityData {
    Wall,
    Ball,
    Brick,
    /// The paddle's movement speed, in micro-units per step.
    Paddle { speed: i64 },
}

/// The kind an entity's gameplay state belongs to.
pub open spec fn data_kind(d: EntityData) -> EntityKind {
    match d {
        EntityData::Wall => EntityKind::Wall,
        EntityData::Ball => EntityKind::Ball,
        EntityData::Brick => EntityKind::Brick,
        EntityData::Paddle { .. } => EntityKind::Paddle,
    }
}

/// A logical game entity: its visual rectangle (centre and size in
/// milli-pixels), its physics handles and its gameplay state.
#[derive(Clone, Copy, PartialEq, Eq, Structural, Debug)]
pub struct GameEntity {
    pub data: EntityData,
    /// Handle of the entity's rigid body, when it has one.
    pub body: Option<u64>,
    /// Handle of the entity's collider, when it has one.
    pub collider: Option<u64>,
    pub x_px: i64,
    pub y_px: i64,
    pub w_px: i64,
    pub h_px: i64,
}

/// A discrete contact notification drained from the physics engine,
/// referencing the two participating collider handles.
#[derive(Clone, Copy, PartialEq, Eq, Structural, Debug)]
pub enum ContactEvent {
    Started(u64, u64),
    Stopped(u64, u64),
}

/// Physics configuration fixed before the first simulation step: gravity (in
/// micro-units per squared step), the distance-unit scale factor, and the
/// timestep policy (frame-rate dependent step count or a fixed rate).
#[derive(Clone, Copy, PartialEq, Eq, Structural, Debug)]
pub struct PhysicsConfig {
    pub gravity_x: i64,
    pub gravity_y: i64,
    pub scale: u32,
    pub time_dependent_timesteps: bool,
}

} // verus!
