//! The game session: the entity store, the physics-world model and the score,
//! with the well-formedness invariant that ties them together and the atomic
//! destruction transaction.

use crate::model::{Body, Collider, EntityData, GameEntity, PhysicsConfig, data_kind};
use crate::tag::{EntityKind, spec_decode, spec_encode};
use crate::units::{MAX_PX_MILLI, phys_of_px, to_physics, valid_scale};
use std::collections::HashMap;
use vstd::prelude::*;

verus! {

broadcast use vstd::std_specs::hash::group_hash_axioms;

/// Mathematical model of a session: the three stores as maps from identifier
/// or handle to record, the score, and the two allocation cursors.
pub ghost struct GameView {
    pub entities: Map<u64, GameEntity>,
    pub colliders: Map<u64, Collider>,
    pub bodies: Map<u64, Body>,
    pub score: int,
    pub next_id: u64,
    pub next_handle: u64,
}

/// The owner field a collider tag must carry for an entity of a given kind:
/// bricks and the ball are tagged with their identifier, walls and the paddle
/// with no owner.
pub open spec fn owner_for(kind: EntityKind, id: u64) -> Option<u64> {
    match kind {
        EntityKind::Ball => Some(id),
        EntityKind::Brick => Some(id),
        EntityKind::Wall => None,
        EntityKind::Paddle => None,
    }
}

/// Well-formedness of one entity record: identifier in the allocated range,
/// both physics handles present together or absent together, each resolving
/// to a live record, the collider attached to the entity's own body and
/// carrying exactly the tag the codec prescribes for this kind and owner.
pub open spec fn wf_entity(g: GameView, id: u64) -> bool {
    let e = g.entities[id];
    &&& 1 <= id && id < g.next_id
    &&& (e.body is Some <==> e.collider is Some)
    &&& (e.body matches Some(b) ==> b < g.next_handle && g.bodies.dom().contains(b))
    &&& (e.collider matches Some(c) ==> {
        &&& c < g.next_handle
        &&& g.colliders.dom().contains(c)
        &&& (e.body matches Some(b) && g.colliders[c].parent == b)
        &&& g.colliders[c].tag == spec_encode(data_kind(e.data), owner_for(data_kind(e.data), id))
    })
}

/// No two live entities share a body handle or a collider handle.
pub open spec fn wf_distinct(g: GameView) -> bool {
    forall|i1: u64, i2: u64|
        #[trigger] g.entities.dom().contains(i1) && #[trigger] g.entities.dom().contains(i2)
            && i1 != i2 ==> {
            let e1 = g.entities[i1];
            let e2 = g.entities[i2];
            &&& !(e1.collider is Some && e1.collider == e2.collider)
            &&& !(e1.body is Some && e1.body == e2.body)
        }
}

/// Every collider hangs on a live body, each body carries at most one
/// collider, and handles stay below the allocation cursor.
pub open spec fn wf_colliders(g: GameView) -> bool {
    &&& forall|c: u64| #[trigger]
        g.colliders.dom().contains(c) ==> c < g.next_handle && g.bodies.dom().contains(
            g.colliders[c].parent,
        )
    &&& forall|c1: u64, c2: u64|
        #[trigger] g.colliders.dom().contains(c1) && #[trigger] g.colliders.dom().contains(c2)
            && c1 != c2 ==> g.colliders[c1].parent != g.colliders[c2].parent
}

/// Body handles stay below the allocation cursor.
pub open spec fn wf_bodies(g: GameView) -> bool {
    forall|b: u64| #[trigger] g.bodies.dom().contains(b) ==> b < g.next_handle
}

/// Every live collider's tag decodes, and an owner named by a tag is a live
/// entity whose collider is exactly that collider.  A tag owner is only ever
/// a weak reference: once the entity dies its collider dies with it, so no
/// live tag dangles.
pub open spec fn wf_owners(g: GameView) -> bool {
    forall|c: u64| #[trigger]
        g.colliders.dom().contains(c) ==> {
            &&& spec_decode(g.colliders[c].tag) is Some
            &&& (spec_decode(g.colliders[c].tag) matches Some((k, owner)) ==> (
            owner matches Some(id) ==> {
                &&& g.entities.dom().contains(id)
                &&& g.entities[id].collider == Some(c)
            }))
        }
}

/// The score never runs ahead of what the remaining entities could still
/// yield without overflowing the counter.
pub open spec fn wf_score(g: GameView) -> bool {
    &&& 0 <= g.score
    &&& g.score + 10 * g.entities.dom().len() <= u32::MAX
}

/// Well-formedness of a whole session model.
pub open spec fn wf_game(g: GameView) -> bool {
    &&& 1 <= g.next_id
    &&& g.entities.dom().finite()
    &&& g.colliders.dom().finite()
    &&& g.bodies.dom().finite()
    &&& forall|id: u64| #[trigger] g.entities.dom().contains(id) ==> wf_entity(g, id)
    &&& wf_distinct(g)
    &&& wf_colliders(g)
    &&& wf_bodies(g)
    &&& wf_owners(g)
    &&& wf_score(g)
}

/// Room for one more allocation: a fresh identifier, a fresh pair of
/// handles, and score headroom for one more destroyable entity.
pub open spec fn can_spawn(g: GameView) -> bool {
    &&& g.next_id < 0xFFFF_FFFF_FFFF_FFFFu64
    &&& g.next_handle < 0xFFFF_FFFF_FFFF_FFFEu64
    &&& g.score + 10 * g.entities.dom().len() + 10 <= u32::MAX
}

/// What one allocation means on the model: the entity record, its rigid
/// body at the converted position, and its tagged collider enter their
/// stores together, under the next identifier and the next two handles.
pub open spec fn spawn_view(
    g: GameView,
    data: EntityData,
    mobility: crate::model::Mobility,
    shape: crate::model::Shape,
    restitution: u32,
    friction: u32,
    x_px: i64,
    y_px: i64,
    w_px: i64,
    h_px: i64,
    vx: i64,
    vy: i64,
    scale: u32,
) -> GameView {
    let id = g.next_id;
    let bh = g.next_handle;
    let ch = (g.next_handle + 1) as u64;
    GameView {
        entities: g.entities.insert(
            id,
            GameEntity { data, body: Some(bh), collider: Some(ch), x_px, y_px, w_px, h_px },
        ),
        colliders: g.colliders.insert(
            ch,
            Collider {
                parent: bh,
                shape,
                restitution,
                friction,
                tag: spec_encode(data_kind(data), owner_for(data_kind(data), id)),
            },
        ),
        bodies: g.bodies.insert(
            bh,
            Body {
                mobility,
                x: phys_of_px(x_px as int, scale) as i64,
                y: phys_of_px(y_px as int, scale) as i64,
                vx,
                vy,
            },
        ),
        score: g.score,
        next_id: (g.next_id + 1) as u64,
        next_handle: (g.next_handle + 2) as u64,
    }
}

/// What destruction means on the model: when the identifier is live, the
/// entity record and its collider and body leave their stores together;
/// otherwise nothing changes.  The score is untouched: scoring belongs to the
/// collision resolver.
pub open spec fn spec_destroy(g: GameView, id: u64) -> GameView {
    if g.entities.dom().contains(id) {
        let e = g.entities[id];
        GameView {
            entities: g.entities.remove(id),
            colliders: match e.collider {
                Some(c) => g.colliders.remove(c),
                None => g.colliders,
            },
            bodies: match e.body {
                Some(b) => g.bodies.remove(b),
                None => g.bodies,
            },
            score: g.score,
            next_id: g.next_id,
            next_handle: g.next_handle,
        }
    } else {
        g
    }
}

/// A running session: the entity store, the physics-world model, the score
/// counter and the paddle-control parameters.
pub struct Session {
    pub entities: HashMap<u64, GameEntity>,
    pub colliders: HashMap<u64, Collider>,
    pub bodies: HashMap<u64, Body>,
    pub score: u32,
    pub next_id: u64,
    pub next_handle: u64,
    /// Identifier of the paddle entity, once spawned.
    pub paddle_id: Option<u64>,
    /// Horizontal clamp bound for the paddle's centre, in micro-units.
    pub half_range: i64,
    pub config: PhysicsConfig,
}

impl View for Session {
    type V = GameView;

    open spec fn view(&self) -> GameView {
        GameView {
            entities: self.entities@,
            colliders: self.colliders@,
            bodies: self.bodies@,
            score: self.score as int,
            next_id: self.next_id,
            next_handle: self.next_handle,
        }
    }
}

impl Session {
    /// Well-formedness of a session: its model satisfies the game invariant
    /// and its scale factor is usable.
    pub open spec fn wf(&self) -> bool {
        &&& wf_game(self@)
        &&& valid_scale(self.config.scale)
        &&& 0 <= self.half_range
    }

    /// Opens a session: empty stores, score zero, and the paddle clamp bound
    /// derived from the playfield and paddle widths (both in milli-pixels)
    /// under the configured scale factor.
    pub fn new(config: PhysicsConfig, level_width_px: i64, paddle_width_px: i64) -> (s: Session)
        requires
            valid_scale(config.scale),
            0 <= paddle_width_px <= level_width_px <= MAX_PX_MILLI,
        ensures
            s.wf(),
            s@.entities =~= Map::<u64, GameEntity>::empty(),
            s@.colliders =~= Map::<u64, Collider>::empty(),
            s@.bodies =~= Map::<u64, Body>::empty(),
            s@.entities.dom().len() == 0,
            can_spawn(s@),
            s.score == 0,
            s.next_id == 1,
            s.paddle_id is None,
            s.half_range == phys_of_px((level_width_px - paddle_width_px) as int / 2, config.scale),
            s.config == config,
    {
        let span_u: u64 = ((level_width_px - paddle_width_px) as u64) / 2;
        let span: i64 = span_u as i64;
        let half_range = to_physics(span, config.scale);
        proof {
            assert(1 <= 1000int / (config.scale as int)) by (nonlinear_arith)
                requires
                    0 < config.scale <= 1000,
            ;
            assert(0 <= span * crate::units::phys_per_milli_px(config.scale)) by (nonlinear_arith)
                requires
                    0 <= span,
                    0 < crate::units::phys_per_milli_px(config.scale),
            ;
        }
        let s = Session {
            entities: HashMap::new(),
            colliders: HashMap::new(),
            bodies: HashMap::new(),
            score: 0,
            next_id: 1,
            next_handle: 1,
            paddle_id: None,
            half_range,
            config,
        };
        proof {
            assert(s@.entities.dom() =~= Set::<u64>::empty());
        }
        s
    }

    /// Removes the entity named by `id` together with its physics collider
    /// and its physics body, as one transaction; a no-op when no live entity
    /// carries that identifier.  Collider removal precedes body removal.
    pub fn destroy_entity(&mut self, id: u64) -> (destroyed: bool)
        requires
            old(self).wf(),
        ensures
            final(self).wf(),
            destroyed == old(self)@.entities.dom().contains(id),
            final(self)@ == spec_destroy(old(self)@, id),
            final(self).paddle_id == old(self).paddle_id,
            final(self).half_range == old(self).half_range,
            final(self).config == old(self).config,
    {
        let ghost g0 = self@;
        match self.entities.remove(&id) {
            Some(e) => {
                match e.collider {
                    Some(c) => {
                        self.colliders.remove(&c);
                    },
                    None => {},
                }
                match e.body {
                    Some(b) => {
                        self.bodies.remove(&b);
                    },
                    None => {},
                }
                proof {
                    lemma_destroy_preserves_wf(g0, id);
                }
                true
            },
            None => {
                proof {
                    assert(g0.entities.remove(id) =~= g0.entities);
                }
                false
            },
        }
    }
}

impl Session {
    /// Whether the entity store holds a live entity under this identifier.
    pub fn entity_exists(&self, id: u64) -> (r: bool)
        ensures
            r == self@.entities.dom().contains(id),
    {
        self.entities.contains_key(&id)
    }

    /// The entity record under this identifier, if it lives.
    pub fn get_entity(&self, id: u64) -> (r: Option<GameEntity>)
        ensures
            r == if self@.entities.dom().contains(id) {
                Some(self@.entities[id])
            } else {
                Option::<GameEntity>::None
            },
    {
        match self.entities.get(&id) {
            Some(e) => Some(*e),
            None => None,
        }
    }

    /// Whether the physics world holds a collider under this handle.
    pub fn collider_exists(&self, handle: u64) -> (r: bool)
        ensures
            r == self@.colliders.dom().contains(handle),
    {
        self.colliders.contains_key(&handle)
    }

    /// The collider record under this handle, if it lives.
    pub fn get_collider(&self, handle: u64) -> (r: Option<Collider>)
        ensures
            r == if self@.colliders.dom().contains(handle) {
                Some(self@.colliders[handle])
            } else {
                Option::<Collider>::None
            },
    {
        match self.colliders.get(&handle) {
            Some(c) => Some(*c),
            None => None,
        }
    }

    /// Whether the physics world holds a rigid body under this handle.
    pub fn body_exists(&self, handle: u64) -> (r: bool)
        ensures
            r == self@.bodies.dom().contains(handle),
    {
        self.bodies.contains_key(&handle)
    }

    /// The body record under this handle, if it lives.
    pub fn get_body(&self, handle: u64) -> (r: Option<Body>)
        ensures
            r == if self@.bodies.dom().contains(handle) {
                Some(self@.bodies[handle])
            } else {
                Option::<Body>::None
            },
    {
        match self.bodies.get(&handle) {
            Some(b) => Some(*b),
            None => None,
        }
    }

    /// The current score.
    pub fn get_score(&self) -> (r: u32)
        ensures
            r == self@.score,
    {
        self.score
    }
}

/// Destruction atomicity: once an entity is destroyed, its identifier, its
/// collider handle and its body handle are all gone from their stores, never
/// a partial subset.
pub proof fn lemma_destruction_atomic(g: GameView, id: u64)
    requires
        wf_game(g),
        g.entities.dom().contains(id),
    ensures
        !spec_destroy(g, id).entities.dom().contains(id),
        g.entities[id].collider matches Some(c) ==> !spec_destroy(g, id).colliders.dom().contains(
            c,
        ),
        g.entities[id].body matches Some(b) ==> !spec_destroy(g, id).bodies.dom().contains(b),
{
}

/// The next identifier is always fresh: every live identifier lies below it.
pub proof fn lemma_fresh_id(g: GameView)
    requires
        wf_game(g),
    ensures
        !g.entities.dom().contains(g.next_id),
{
    if g.entities.dom().contains(g.next_id) {
        assert(wf_entity(g, g.next_id));
    }
}

/// Destruction preserves the session invariant: the surviving records still
/// link only to live handles, because no two entities ever shared one.
pub proof fn lemma_destroy_preserves_wf(g: GameView, id: u64)
    requires
        wf_game(g),
    ensures
        wf_game(spec_destroy(g, id)),
{
    if g.entities.dom().contains(id) {
        let e = g.entities[id];
        let g2 = spec_destroy(g, id);
        assert(g.entities.dom().remove(id).len() == g.entities.dom().len() - 1);
        assert forall|id2: u64| #[trigger] g2.entities.dom().contains(id2) implies wf_entity(
            g2,
            id2,
        ) by {
            assert(g.entities.dom().contains(id2));
            assert(wf_entity(g, id2));
            assert(id2 != id);
        }
        assert forall|c2: u64| #[trigger] g2.colliders.dom().contains(c2) implies c2
            < g2.next_handle && g2.bodies.dom().contains(g2.colliders[c2].parent) by {
            assert(g.colliders.dom().contains(c2));
            match e.collider {
                Some(c) => {
                    assert(c2 != c);
                    match e.body {
                        Some(b) => {
                            assert(g.colliders[c].parent == b);
                            assert(g.colliders[c2].parent != b);
                        },
                        None => {},
                    }
                },
                None => {},
            }
        }
        assert forall|c2: u64| #[trigger] g2.colliders.dom().contains(c2) implies {
            &&& spec_decode(g2.colliders[c2].tag) is Some
            &&& (spec_decode(g2.colliders[c2].tag) matches Some((k, owner)) ==> (
            owner matches Some(oid) ==> {
                &&& g2.entities.dom().contains(oid)
                &&& g2.entities[oid].collider == Some(c2)
            }))
        } by {
            assert(g.colliders.dom().contains(c2));
            if let Some((k, owner)) = spec_decode(g.colliders[c2].tag) {
                if let Some(oid) = owner {
                    assert(g.entities.dom().contains(oid));
                    assert(g.entities[oid].collider == Some(c2));
                    if oid == id {
                        assert(e.collider == Some(c2));
                        assert(!g2.colliders.dom().contains(c2));
                    }
                }
            }
        }
    }
}

} // verus!
