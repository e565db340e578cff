//! Collision resolver: drains the contact-event batch once per simulation
//! step, decodes both participants' tags, and applies the brick-destruction
//! and scoring rule.
//!
//! Contacts involving a wall are physics-only.  Every brick participant of a
//! contact is destroyed — entity record, collider and body together — and
//! rewarded; a stale reference, whether a collider handle already removed or
//! a tag owner already dead, is a benign no-op.

use crate::model::ContactEvent;
use crate::session::{GameView, Session, spec_destroy, wf_game};
use crate::tag::{EntityKind, spec_decode};
use vstd::prelude::*;

verus! {

broadcast use vstd::std_specs::hash::group_hash_axioms;

/// Score reward for one destroyed brick.
pub const BRICK_REWARD: u32 = 10;

/// Whether a tag names a wall.
pub open spec fn is_wall_tag(tag: u128) -> bool {
    spec_decode(tag) matches Some((EntityKind::Wall, _))
}

/// Whether a tag names a brick.
pub open spec fn is_brick_tag(tag: u128) -> bool {
    spec_decode(tag) matches Some((EntityKind::Brick, _))
}

/// Destruction with its reward: when the identifier names a live entity it
/// is destroyed and the score grows by the brick reward; otherwise nothing
/// changes.
pub open spec fn destroy_and_score(g: GameView, id: u64) -> GameView {
    if g.entities.dom().contains(id) {
        let g2 = spec_destroy(g, id);
        GameView {
            entities: g2.entities,
            colliders: g2.colliders,
            bodies: g2.bodies,
            score: g.score + BRICK_REWARD,
            next_id: g.next_id,
            next_handle: g.next_handle,
        }
    } else {
        g
    }
}

/// What one participant of a contact contributes: a brick participant is
/// destroyed and scored through its tag's owner; every other participant
/// contributes nothing.
pub open spec fn resolve_participant(g: GameView, tag: u128) -> GameView {
    match spec_decode(tag) {
        Some((k, owner)) => if k == EntityKind::Brick {
            match owner {
                Some(id) => destroy_and_score(g, id),
                None => g,
            }
        } else {
            g
        },
        None => g,
    }
}

/// What one drained event does to the model.  Contact-stop events are
/// observed but produce no action.  A contact-start event whose collider
/// handles are not both live is a stale reference and a no-op; one involving
/// a wall is physics-only; otherwise both participants' tags, read before
/// any destruction, are resolved in order.
pub open spec fn resolve_event(g: GameView, ev: ContactEvent) -> GameView {
    match ev {
        ContactEvent::Stopped(_c0, _c1) => g,
        ContactEvent::Started(c0, c1) => {
            if !g.colliders.dom().contains(c0) || !g.colliders.dom().contains(c1) {
                g
            } else {
                let t0 = g.colliders[c0].tag;
                let t1 = g.colliders[c1].tag;
                if is_wall_tag(t0) || is_wall_tag(t1) {
                    g
                } else {
                    resolve_participant(resolve_participant(g, t0), t1)
                }
            }
        },
    }
}

/// What a whole drained batch does to the model, first event first.
pub open spec fn resolve_seq(g: GameView, evs: Seq<ContactEvent>) -> GameView
    decreases evs.len(),
{
    if evs.len() == 0 {
        g
    } else {
        resolve_event(resolve_seq(g, evs.drop_last()), evs.last())
    }
}

impl Session {
    /// Resolves one participant of a contact: destroys and scores the brick
    /// a tag names, if it still lives.
    fn score_brick_participant(&mut self, tag: u128)
        requires
            old(self).wf(),
        ensures
            final(self).wf(),
            final(self)@ == resolve_participant(old(self)@, tag),
            final(self).paddle_id == old(self).paddle_id,
            final(self).half_range == old(self).half_range,
            final(self).config == old(self).config,
    {
        match crate::tag::decode(tag) {
            Some((kind, owner)) => {
                if kind == EntityKind::Brick {
                    match owner {
                        Some(id) => {
                            let ghost g0 = self@;
                            proof {
                                if g0.entities.dom().contains(id) {
                                    assert(g0.entities.dom().remove(id).len() == g0.entities.dom().len() - 1);
                                }
                            }
                            let destroyed = self.destroy_entity(id);
                            if destroyed {
                                self.score = self.score + BRICK_REWARD;
                            }
                        },
                        None => {},
                    }
                }
            },
            None => {},
        }
    }

    /// Resolves one drained contact event.
    fn resolve_one_event(&mut self, ev: ContactEvent)
        requires
            old(self).wf(),
        ensures
            final(self).wf(),
            final(self)@ == resolve_event(old(self)@, ev),
            final(self).paddle_id == old(self).paddle_id,
            final(self).half_range == old(self).half_range,
            final(self).config == old(self).config,
    {
        match ev {
            ContactEvent::Stopped(_c0, _c1) => {},
            ContactEvent::Started(c0, c1) => {
                let t0_found: Option<u128> = match self.colliders.get(&c0) {
                    Some(col) => Some(col.tag),
                    None => None,
                };
                let t1_found: Option<u128> = match self.colliders.get(&c1) {
                    Some(col) => Some(col.tag),
                    None => None,
                };
                match (t0_found, t1_found) {
                    (Some(t0), Some(t1)) => {
                        let wall0 = match crate::tag::decode(t0) {
                            Some((EntityKind::Wall, _)) => true,
                            _ => false,
                        };
                        let wall1 = match crate::tag::decode(t1) {
                            Some((EntityKind::Wall, _)) => true,
                            _ => false,
                        };
                        if !wall0 && !wall1 {
                            self.score_brick_participant(t0);
                            self.score_brick_participant(t1);
                        }
                    },
                    _ => {},
                }
            },
        }
    }

    /// Drains one step's batch of contact events, in order.  Runs strictly
    /// after the physics engine has advanced and published the batch, and
    /// strictly before the next step's input processing.
    pub fn resolve_contact_events(&mut self, events: &Vec<ContactEvent>)
        requires
            old(self).wf(),
        ensures
            final(self).wf(),
            final(self)@ == resolve_seq(old(self)@, events@),
            final(self).paddle_id == old(self).paddle_id,
            final(self).half_range == old(self).half_range,
            final(self).config == old(self).config,
    {
        let ghost g0 = self@;
        let n = events.len();
        let mut i: usize = 0;
        while i < n
            invariant
                0 <= i <= n,
                n == events@.len(),
                self.wf(),
                self@ == resolve_seq(g0, events@.take(i as int)),
                self.paddle_id == old(self).paddle_id,
                self.half_range == old(self).half_range,
                self.config == old(self).config,
            decreases n - i,
        {
            proof {
                assert(events@.take(i as int + 1).drop_last() =~= events@.take(i as int));
                assert(events@.take(i as int + 1).last() == events@[i as int]);
            }
            self.resolve_one_event(events[i]);
            i = i + 1;
        }
        proof {
            assert(events@.take(n as int) =~= events@);
        }
    }
}

/// Wall immunity: a contact event one of whose participants is tagged as a
/// wall produces no entity-store mutation and no score change.
pub proof fn lemma_wall_immunity(g: GameView, c0: u64, c1: u64)
    requires
        g.colliders.dom().contains(c0),
        g.colliders.dom().contains(c1),
        is_wall_tag(g.colliders[c0].tag) || is_wall_tag(g.colliders[c1].tag),
    ensures
        resolve_event(g, ContactEvent::Started(c0, c1)) == g,
{
}

/// A contact event referencing a collider handle that is no longer in the
/// physics world is a benign no-op.
pub proof fn lemma_stale_event_noop(g: GameView, c0: u64, c1: u64)
    requires
        !g.colliders.dom().contains(c0) || !g.colliders.dom().contains(c1),
    ensures
        resolve_event(g, ContactEvent::Started(c0, c1)) == g,
{
}

/// One participant's accounting: the entity set only shrinks, and the score
/// grows by exactly one reward per entity removed.
proof fn lemma_participant_accounting(g: GameView, tag: u128)
    requires
        g.entities.dom().finite(),
    ensures
        resolve_participant(g, tag).entities.dom().subset_of(g.entities.dom()),
        resolve_participant(g, tag).entities.dom().finite(),
        resolve_participant(g, tag).score == g.score + BRICK_REWARD * (g.entities.dom().len()
            - resolve_participant(g, tag).entities.dom().len()),
        resolve_participant(g, tag).colliders.dom().subset_of(g.colliders.dom()),
        resolve_participant(g, tag).bodies.dom().subset_of(g.bodies.dom()),
{
    if let Some((k, owner)) = spec_decode(tag) {
        if k == EntityKind::Brick {
            if let Some(id) = owner {
                if g.entities.dom().contains(id) {
                    assert(g.entities.dom().remove(id).len() == g.entities.dom().len() - 1);
                }
            }
        }
    }
}

/// One event's accounting: the entity set only shrinks, and the score grows
/// by exactly one reward per entity removed.
pub proof fn lemma_event_accounting(g: GameView, ev: ContactEvent)
    requires
        g.entities.dom().finite(),
    ensures
        resolve_event(g, ev).entities.dom().subset_of(g.entities.dom()),
        resolve_event(g, ev).entities.dom().finite(),
        resolve_event(g, ev).score == g.score + BRICK_REWARD * (g.entities.dom().len()
            - resolve_event(g, ev).entities.dom().len()),
        g.score <= resolve_event(g, ev).score,
{
    match ev {
        ContactEvent::Stopped(_c0, _c1) => {},
        ContactEvent::Started(c0, c1) => {
            if g.colliders.dom().contains(c0) && g.colliders.dom().contains(c1) {
                let t0 = g.colliders[c0].tag;
                let t1 = g.colliders[c1].tag;
                if !is_wall_tag(t0) && !is_wall_tag(t1) {
                    lemma_participant_accounting(g, t0);
                    lemma_participant_accounting(resolve_participant(g, t0), t1);
                }
            }
        },
    }
}

/// Score monotonicity: over a whole drained batch the score never
/// decreases, the entity set only shrinks, and the score grows by exactly
/// one reward per distinct entity destroyed.
pub proof fn lemma_score_monotonic(g: GameView, evs: Seq<ContactEvent>)
    requires
        g.entities.dom().finite(),
    ensures
        resolve_seq(g, evs).entities.dom().subset_of(g.entities.dom()),
        resolve_seq(g, evs).entities.dom().finite(),
        resolve_seq(g, evs).score == g.score + BRICK_REWARD * (g.entities.dom().len()
            - resolve_seq(g, evs).entities.dom().len()),
        g.score <= resolve_seq(g, evs).score,
    decreases evs.len(),
{
    if evs.len() > 0 {
        lemma_score_monotonic(g, evs.drop_last());
        lemma_event_accounting(resolve_seq(g, evs.drop_last()), evs.last());
    }
}

/// Destruction together with its reward preserves the model invariant.
proof fn lemma_destroy_and_score_preserves_wf(g: GameView, id: u64)
    requires
        wf_game(g),
    ensures
        wf_game(destroy_and_score(g, id)),
{
    if g.entities.dom().contains(id) {
        crate::session::lemma_destroy_preserves_wf(g, id);
        assert(g.entities.dom().remove(id).len() == g.entities.dom().len() - 1);
    }
}

/// One participant: the invariant survives, surviving records are
/// untouched, and any entity removed was a brick — provided the tag is the
/// tag of some live collider.
proof fn lemma_participant_preserves_wf(g: GameView, c: u64)
    requires
        wf_game(g),
        g.colliders.dom().contains(c),
    ensures
        wf_game(resolve_participant(g, g.colliders[c].tag)),
        forall|id: u64| #[trigger]
            resolve_participant(g, g.colliders[c].tag).entities.dom().contains(id)
                ==> g.entities.dom().contains(id) && resolve_participant(
                g,
                g.colliders[c].tag,
            ).entities[id] == g.entities[id],
        forall|id: u64|
            g.entities.dom().contains(id) && !resolve_participant(
                g,
                g.colliders[c].tag,
            ).entities.dom().contains(id) ==> crate::model::data_kind(g.entities[id].data)
                == EntityKind::Brick,
{
    let tag = g.colliders[c].tag;
    if let Some((k, owner)) = spec_decode(tag) {
        if k == EntityKind::Brick {
            if let Some(oid) = owner {
                lemma_destroy_and_score_preserves_wf(g, oid);
                if g.entities.dom().contains(oid) {
                    let e = g.entities[oid];
                    assert(crate::session::wf_entity(g, oid));
                    let ek = crate::model::data_kind(e.data);
                    crate::tag::lemma_tag_round_trip(
                        ek,
                        crate::session::owner_for(ek, oid),
                    );
                }
            }
        }
    }
}

/// One event: the invariant survives, surviving records are untouched, and
/// every entity the event removes was a brick.
pub proof fn lemma_event_preserves_wf(g: GameView, ev: ContactEvent)
    requires
        wf_game(g),
    ensures
        wf_game(resolve_event(g, ev)),
        forall|id: u64| #[trigger]
            resolve_event(g, ev).entities.dom().contains(id) ==> g.entities.dom().contains(id)
                && resolve_event(g, ev).entities[id] == g.entities[id],
        forall|id: u64|
            g.entities.dom().contains(id) && !resolve_event(g, ev).entities.dom().contains(id)
                ==> crate::model::data_kind(g.entities[id].data) == EntityKind::Brick,
{
    match ev {
        ContactEvent::Stopped(_c0, _c1) => {},
        ContactEvent::Started(c0, c1) => {
            if g.colliders.dom().contains(c0) && g.colliders.dom().contains(c1) {
                let t0 = g.colliders[c0].tag;
                let t1 = g.colliders[c1].tag;
                if !is_wall_tag(t0) && !is_wall_tag(t1) {
                    lemma_participant_preserves_wf(g, c0);
                    let g1 = resolve_participant(g, t0);
                    if g1.colliders.dom().contains(c1) && g1.colliders[c1].tag == t1 {
                        lemma_participant_preserves_wf(g1, c1);
                    } else {
                        // the first participant removed collider `c1`: both
                        // participants were the same brick collider, so the
                        // second resolution finds its owner already dead
                        assert(c1 == c0);
                        assert(resolve_participant(g1, t1) == g1);
                    }
                }
            }
        },
    }
}

/// A whole drained batch: the invariant survives, surviving records are
/// untouched, and every entity the batch destroys was a brick.
pub proof fn lemma_batch_preserves_wf(g: GameView, evs: Seq<ContactEvent>)
    requires
        wf_game(g),
    ensures
        wf_game(resolve_seq(g, evs)),
        forall|id: u64| #[trigger]
            resolve_seq(g, evs).entities.dom().contains(id) ==> g.entities.dom().contains(id)
                && resolve_seq(g, evs).entities[id] == g.entities[id],
        forall|id: u64|
            g.entities.dom().contains(id) && !resolve_seq(g, evs).entities.dom().contains(id)
                ==> crate::model::data_kind(g.entities[id].data) == EntityKind::Brick,
    decreases evs.len(),
{
    if evs.len() > 0 {
        lemma_batch_preserves_wf(g, evs.drop_last());
        lemma_event_preserves_wf(resolve_seq(g, evs.drop_last()), evs.last());
    }
}

/// Idempotent destruction: two contact-start events in one batch against
/// the same already-destroyed brick collider, each with a live partner that
/// is neither wall nor brick, change the score by exactly one reward, not
/// two, and do not fault.
pub proof fn lemma_repeated_contact_scores_once(g: GameView, c0: u64, d0: u64, d1: u64)
    requires
        wf_game(g),
        g.colliders.dom().contains(c0),
        spec_decode(g.colliders[c0].tag) matches Some((EntityKind::Brick, Some(_))),
        g.colliders.dom().contains(d0),
        g.colliders.dom().contains(d1),
        !is_wall_tag(g.colliders[d0].tag),
        !is_brick_tag(g.colliders[d0].tag),
        !is_wall_tag(g.colliders[d1].tag),
        !is_brick_tag(g.colliders[d1].tag),
    ensures
        resolve_seq(
            g,
            seq![ContactEvent::Started(c0, d0), ContactEvent::Started(c0, d1)],
        ).score == g.score + BRICK_REWARD,
{
    reveal_with_fuel(resolve_seq, 3);
    let e0 = ContactEvent::Started(c0, d0);
    let e1 = ContactEvent::Started(c0, d1);
    let s = seq![e0, e1];
    assert(s.drop_last() =~= seq![e0]);
    assert(seq![e0].drop_last() =~= Seq::<ContactEvent>::empty());
    assert(resolve_seq(g, Seq::<ContactEvent>::empty()) == g);
    assert(resolve_seq(g, seq![e0]) == resolve_event(g, e0));
    assert(resolve_seq(g, s) == resolve_event(resolve_event(g, e0), e1));
    let t0 = g.colliders[c0].tag;
    if let Some((k, owner)) = spec_decode(t0) {
        if let Some(id) = owner {
            assert(g.entities.dom().contains(id) && g.entities[id].collider == Some(c0));
            let g1 = resolve_event(g, ContactEvent::Started(c0, d0));
            assert(g1 == resolve_participant(g, t0));
            assert(g1.score == g.score + BRICK_REWARD);
            assert(!g1.colliders.dom().contains(c0));
            assert(resolve_event(g1, ContactEvent::Started(c0, d1)) == g1);
        }
    }
}

} // verus!
