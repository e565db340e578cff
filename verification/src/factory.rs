//! Entity factory: one constructor per kind of game entity.
//!
//! Each constructor creates the paired visual record, rigid body and tagged
//! collider as one allocation, applying the kind's physical properties and
//! converting visual coordinates to physics units through the session's scale
//! factor.

use crate::model::{Body, Collider, EntityData, GameEntity, Mobility, Shape, data_kind};
use crate::session::{GameView, Session, can_spawn, owner_for, spawn_view, wf_game};
use crate::tag::lemma_tag_round_trip;
use crate::units::{MAX_PX_MILLI, half_phys, half_physics, to_physics};
use vstd::prelude::*;

verus! {

broadcast use vstd::std_specs::hash::group_hash_axioms;

/// Restitution of walls, bricks and the ball: a coefficient of one.
pub const BOUNCY: u32 = 1000;

/// Restitution of the paddle: a coefficient of two, amplifying rebounds.
pub const PADDLE_RESTITUTION: u32 = 2000;

/// Friction of walls and the ball: none.
pub const FRICTIONLESS: u32 = 0;

/// Friction of the paddle: a coefficient of one.
pub const PADDLE_FRICTION: u32 = 1000;

/// Friction a brick is left with: the engine's default coefficient of one
/// half.
pub const DEFAULT_FRICTION: u32 = 500;

/// The ball's fixed radius, in milli-pixels.
pub const BALL_RADIUS_PX: i64 = 5_000;

/// Corner diameter of the paddle's rounded collider, in milli-pixels.
pub const PADDLE_CORNER_PX: i64 = 5_000;

impl Session {
    /// Allocates one entity: a fresh identifier, a rigid body at the
    /// converted position, and a collider carrying the tag the codec
    /// prescribes for this kind and owner.
    fn spawn_object(
        &mut self,
        data: EntityData,
        mobility: Mobility,
        shape: Shape,
        restitution: u32,
        friction: u32,
        x_px: i64,
        y_px: i64,
        w_px: i64,
        h_px: i64,
        vx: i64,
        vy: i64,
    ) -> (id: u64)
        requires
            old(self).wf(),
            can_spawn(old(self)@),
            -MAX_PX_MILLI <= x_px <= MAX_PX_MILLI,
            -MAX_PX_MILLI <= y_px <= MAX_PX_MILLI,
        ensures
            id == old(self)@.next_id,
            final(self)@ == spawn_view(
                old(self)@,
                data,
                mobility,
                shape,
                restitution,
                friction,
                x_px,
                y_px,
                w_px,
                h_px,
                vx,
                vy,
                old(self).config.scale,
            ),
            final(self).wf(),
            final(self).paddle_id == old(self).paddle_id,
            final(self).half_range == old(self).half_range,
            final(self).config == old(self).config,
    {
        let ghost g0 = self@;
        let id = self.next_id;
        let bh = self.next_handle;
        let ch = self.next_handle + 1;
        let px = to_physics(x_px, self.config.scale);
        let py = to_physics(y_px, self.config.scale);
        self.bodies.insert(bh, Body { mobility, x: px, y: py, vx, vy });
        let tag = crate::tag::encode(data_kind_exec(&data), owner_exec(&data, id));
        self.colliders.insert(ch, Collider { parent: bh, shape, restitution, friction, tag });
        self.entities.insert(
            id,
            GameEntity { data, body: Some(bh), collider: Some(ch), x_px, y_px, w_px, h_px },
        );
        self.next_id = id + 1;
        self.next_handle = bh + 2;
        proof {
            lemma_spawn_preserves_wf(
                g0,
                data,
                mobility,
                shape,
                restitution,
                friction,
                x_px,
                y_px,
                w_px,
                h_px,
                vx,
                vy,
                old(self).config.scale,
            );
        }
        id
    }

    /// Spawns a wall: an immobile body with a box collider sized to the
    /// given rectangle, perfectly bouncy and frictionless, tagged with no
    /// owner.  Walls only bound the play area.
    pub fn spawn_wall(&mut self, x_px: i64, y_px: i64, w_px: i64, h_px: i64) -> (id: u64)
        requires
            old(self).wf(),
            can_spawn(old(self)@),
            -MAX_PX_MILLI <= x_px <= MAX_PX_MILLI,
            -MAX_PX_MILLI <= y_px <= MAX_PX_MILLI,
            0 <= w_px <= MAX_PX_MILLI,
            0 <= h_px <= MAX_PX_MILLI,
        ensures
            id == old(self)@.next_id,
            final(self)@ == spawn_view(
                old(self)@,
                EntityData::Wall,
                Mobility::Static,
                Shape::Box {
                    half_x: half_phys(w_px as int, old(self).config.scale) as i64,
                    half_y: half_phys(h_px as int, old(self).config.scale) as i64,
                },
                BOUNCY,
                FRICTIONLESS,
                x_px,
                y_px,
                w_px,
                h_px,
                0,
                0,
                old(self).config.scale,
            ),
            final(self).wf(),
            final(self).paddle_id == old(self).paddle_id,
            final(self).half_range == old(self).half_range,
            final(self).config == old(self).config,
    {
        let half_x = half_physics(w_px, self.config.scale);
        let half_y = half_physics(h_px, self.config.scale);
        self.spawn_object(
            EntityData::Wall,
            Mobility::Static,
            Shape::Box { half_x, half_y },
            BOUNCY,
            FRICTIONLESS,
            x_px,
            y_px,
            w_px,
            h_px,
            0,
            0,
        )
    }

    /// Spawns the ball: a dynamic body with the given initial velocity (in
    /// micro-units per step) and a circle collider of the fixed ball radius,
    /// perfectly bouncy and frictionless, tagged with its own identifier.
    pub fn spawn_ball(&mut self, x_px: i64, y_px: i64, vx: i64, vy: i64) -> (id: u64)
        requires
            old(self).wf(),
            can_spawn(old(self)@),
            -MAX_PX_MILLI <= x_px <= MAX_PX_MILLI,
            -MAX_PX_MILLI <= y_px <= MAX_PX_MILLI,
        ensures
            id == old(self)@.next_id,
            final(self)@ == spawn_view(
                old(self)@,
                EntityData::Ball,
                Mobility::Dynamic,
                Shape::Circle {
                    radius: half_phys(2 * BALL_RADIUS_PX as int, old(self).config.scale) as i64,
                },
                BOUNCY,
                FRICTIONLESS,
                x_px,
                y_px,
                (2 * BALL_RADIUS_PX) as i64,
                (2 * BALL_RADIUS_PX) as i64,
                vx,
                vy,
                old(self).config.scale,
            ),
            final(self).wf(),
            final(self).paddle_id == old(self).paddle_id,
            final(self).half_range == old(self).half_range,
            final(self).config == old(self).config,
    {
        let radius = half_physics(2 * BALL_RADIUS_PX, self.config.scale);
        self.spawn_object(
            EntityData::Ball,
            Mobility::Dynamic,
            Shape::Circle { radius },
            BOUNCY,
            FRICTIONLESS,
            x_px,
            y_px,
            2 * BALL_RADIUS_PX,
            2 * BALL_RADIUS_PX,
            vx,
            vy,
        )
    }

    /// Spawns the paddle: a kinematic body, moved directly by game logic,
    /// with a rounded-box collider, amplified restitution and full friction,
    /// tagged with no owner.  The session remembers the paddle's identifier
    /// for the controller.
    pub fn spawn_paddle(&mut self, x_px: i64, y_px: i64, w_px: i64, h_px: i64, speed: i64) -> (id:
        u64)
        requires
            old(self).wf(),
            can_spawn(old(self)@),
            -MAX_PX_MILLI <= x_px <= MAX_PX_MILLI,
            -MAX_PX_MILLI <= y_px <= MAX_PX_MILLI,
            0 <= w_px <= MAX_PX_MILLI,
            0 <= h_px <= MAX_PX_MILLI,
        ensures
            id == old(self)@.next_id,
            final(self)@ == spawn_view(
                old(self)@,
                EntityData::Paddle { speed },
                Mobility::Kinematic,
                Shape::RoundedBox {
                    half_x: half_phys(w_px as int, old(self).config.scale) as i64,
                    half_y: half_phys(h_px as int, old(self).config.scale) as i64,
                    corner: half_phys(PADDLE_CORNER_PX as int, old(self).config.scale) as i64,
                },
                PADDLE_RESTITUTION,
                PADDLE_FRICTION,
                x_px,
                y_px,
                w_px,
                h_px,
                0,
                0,
                old(self).config.scale,
            ),
            final(self).wf(),
            final(self).paddle_id == Some(id),
            final(self).half_range == old(self).half_range,
            final(self).config == old(self).config,
    {
        let half_x = half_physics(w_px, self.config.scale);
        let half_y = half_physics(h_px, self.config.scale);
        let corner = half_physics(PADDLE_CORNER_PX, self.config.scale);
        let id = self.spawn_object(
            EntityData::Paddle { speed },
            Mobility::Kinematic,
            Shape::RoundedBox { half_x, half_y, corner },
            PADDLE_RESTITUTION,
            PADDLE_FRICTION,
            x_px,
            y_px,
            w_px,
            h_px,
            0,
            0,
        );
        self.paddle_id = Some(id);
        id
    }

    /// Spawns a brick: a static body with a box collider, perfectly bouncy
    /// with the engine's default friction, tagged with its own identifier so
    /// the collision resolver can locate and despawn it on contact.
    pub fn spawn_brick(&mut self, x_px: i64, y_px: i64, w_px: i64, h_px: i64) -> (id: u64)
        requires
            old(self).wf(),
            can_spawn(old(self)@),
            -MAX_PX_MILLI <= x_px <= MAX_PX_MILLI,
            -MAX_PX_MILLI <= y_px <= MAX_PX_MILLI,
            0 <= w_px <= MAX_PX_MILLI,
            0 <= h_px <= MAX_PX_MILLI,
        ensures
            id == old(self)@.next_id,
            final(self)@ == spawn_view(
                old(self)@,
                EntityData::Brick,
                Mobility::Static,
                Shape::Box {
                    half_x: half_phys(w_px as int, old(self).config.scale) as i64,
                    half_y: half_phys(h_px as int, old(self).config.scale) as i64,
                },
                BOUNCY,
                DEFAULT_FRICTION,
                x_px,
                y_px,
                w_px,
                h_px,
                0,
                0,
                old(self).config.scale,
            ),
            final(self).wf(),
            final(self).paddle_id == old(self).paddle_id,
            final(self).half_range == old(self).half_range,
            final(self).config == old(self).config,
    {
        let half_x = half_physics(w_px, self.config.scale);
        let half_y = half_physics(h_px, self.config.scale);
        self.spawn_object(
            EntityData::Brick,
            Mobility::Static,
            Shape::Box { half_x, half_y },
            BOUNCY,
            DEFAULT_FRICTION,
            x_px,
            y_px,
            w_px,
            h_px,
            0,
            0,
        )
    }
}

/// Executable twin of `data_kind`.
fn data_kind_exec(d: &EntityData) -> (k: crate::tag::EntityKind)
    ensures
        k == data_kind(*d),
{
    match d {
        EntityData::Wall => crate::tag::EntityKind::Wall,
        EntityData::Ball => crate::tag::EntityKind::Ball,
        EntityData::Brick => crate::tag::EntityKind::Brick,
        EntityData::Paddle { .. } => crate::tag::EntityKind::Paddle,
    }
}

/// Executable twin of `owner_for` on an entity's data.
fn owner_exec(d: &EntityData, id: u64) -> (o: Option<u64>)
    ensures
        o == owner_for(data_kind(*d), id),
{
    match d {
        EntityData::Ball => Some(id),
        EntityData::Brick => Some(id),
        EntityData::Wall => None,
        EntityData::Paddle { .. } => None,
    }
}

/// Spawning preserves the session invariant: the fresh identifier and the
/// fresh pair of handles collide with nothing live, and the new collider's
/// tag decodes back to its kind and owner.
pub proof fn lemma_spawn_preserves_wf(
    g: GameView,
    data: EntityData,
    mobility: Mobility,
    shape: Shape,
    restitution: u32,
    friction: u32,
    x_px: i64,
    y_px: i64,
    w_px: i64,
    h_px: i64,
    vx: i64,
    vy: i64,
    scale: u32,
)
    requires
        wf_game(g),
        can_spawn(g),
    ensures
        wf_game(
            spawn_view(
                g,
                data,
                mobility,
                shape,
                restitution,
                friction,
                x_px,
                y_px,
                w_px,
                h_px,
                vx,
                vy,
                scale,
            ),
        ),
{
    let g2 = spawn_view(
        g,
        data,
        mobility,
        shape,
        restitution,
        friction,
        x_px,
        y_px,
        w_px,
        h_px,
        vx,
        vy,
        scale,
    );
    let id = g.next_id;
    let bh = g.next_handle;
    let ch = (g.next_handle + 1) as u64;
    let kind = data_kind(data);
    assert(!g.entities.dom().contains(id));
    assert(!g.bodies.dom().contains(bh));
    assert(!g.colliders.dom().contains(ch));
    assert(g.entities.dom().insert(id).len() == g.entities.dom().len() + 1);
    lemma_tag_round_trip(kind, owner_for(kind, id));
    assert forall|id2: u64| #[trigger] g2.entities.dom().contains(id2) implies crate::session::wf_entity(
        g2,
        id2,
    ) by {
        if id2 != id {
            assert(g.entities.dom().contains(id2));
            assert(crate::session::wf_entity(g, id2));
        }
    }
    assert forall|c2: u64| #[trigger] g2.colliders.dom().contains(c2) implies {
        &&& crate::tag::spec_decode(g2.colliders[c2].tag) is Some
        &&& (crate::tag::spec_decode(g2.colliders[c2].tag) matches Some((k, owner)) ==> (
        owner matches Some(oid) ==> {
            &&& g2.entities.dom().contains(oid)
            &&& g2.entities[oid].collider == Some(c2)
        }))
    } by {
        if c2 != ch {
            assert(g.colliders.dom().contains(c2));
            if let Some((k, owner)) = crate::tag::spec_decode(g.colliders[c2].tag) {
                if let Some(oid) = owner {
                    assert(g.entities.dom().contains(oid));
                    assert(oid != id);
                }
            }
        }
    }
}

} // verus!
