//! Collider tag codec.
//!
//! Every physics collider carries one fixed-width tag, set at creation and
//! never mutated.  The tag packs the entity kind into the low 64 bits and the
//! owning entity's identifier into the high 64 bits; a zero high field means
//! "no owner".  This codec is the only channel through which a contact event
//! is mapped back into game semantics.

use vstd::prelude::*;

verus! {

/// The kinds of game object a physics collider can stand for.
#[derive(Clone, Copy, PartialEq, Eq, Structural, Debug)]
pub enum EntityKind {
    Wall,
    Ball,
    Brick,
    Paddle,
}

/// The numeric code stored in a tag's low field, one per kind.
pub open spec fn kind_code(k: EntityKind) -> u64 {
    match k {
        EntityKind::Wall => 0,
        EntityKind::Ball => 1,
        EntityKind::Brick => 2,
        EntityKind::Paddle => 3,
    }
}

/// The kind a low-field code stands for; codes past the enumeration decode to
/// nothing.
pub open spec fn kind_of_code(code: u64) -> Option<EntityKind> {
    if code == 0 {
        Some(EntityKind::Wall)
    } else if code == 1 {
        Some(EntityKind::Ball)
    } else if code == 2 {
        Some(EntityKind::Brick)
    } else if code == 3 {
        Some(EntityKind::Paddle)
    } else {
        None
    }
}

/// An owner is representable when absent or nonzero: the zero high field is
/// reserved to mean "no owner".
pub open spec fn valid_owner(owner: Option<u64>) -> bool {
    match owner {
        Some(id) => id != 0,
        None => true,
    }
}

/// The value of a tag's high field for a given owner.
pub open spec fn owner_bits(owner: Option<u64>) -> u64 {
    match owner {
        Some(id) => id,
        None => 0,
    }
}

/// What `encode` packs: owner in the high 64 bits, kind code in the low 64.
pub open spec fn spec_encode(kind: EntityKind, owner: Option<u64>) -> u128 {
    ((owner_bits(owner) as u128) << 64) | (kind_code(kind) as u128)
}

/// What `decode` recovers: the kind named by the low field, if any, and the
/// owner named by the high field, absent when that field is zero.
pub open spec fn spec_decode(tag: u128) -> Option<(EntityKind, Option<u64>)> {
    let code = (tag & 0xFFFF_FFFF_FFFF_FFFFu128) as u64;
    let hi = (tag >> 64u128) as u64;
    match kind_of_code(code) {
        Some(k) => Some((k, if hi == 0 { Option::<u64>::None } else { Some(hi) })),
        None => None,
    }
}

/// Packs a kind and an optional owner identifier into one collider tag.
pub fn encode(kind: EntityKind, owner: Option<u64>) -> (tag: u128)
    requires
        valid_owner(owner),
    ensures
        tag == spec_encode(kind, owner),
{
    let hi: u64 = match owner {
        Some(id) => id,
        None => 0,
    };
    let code: u64 = match kind {
        EntityKind::Wall => 0,
        EntityKind::Ball => 1,
        EntityKind::Brick => 2,
        EntityKind::Paddle => 3,
    };
    ((hi as u128) << 64) | (code as u128)
}

/// Unpacks a collider tag; yields nothing when the low field holds no known
/// kind code.
pub fn decode(tag: u128) -> (r: Option<(EntityKind, Option<u64>)>)
    ensures
        r == spec_decode(tag),
{
    proof {
        assert(tag & 0xFFFF_FFFF_FFFF_FFFFu128 <= 0xFFFF_FFFF_FFFF_FFFFu128) by (bit_vector);
        assert(tag >> 64u128 <= 0xFFFF_FFFF_FFFF_FFFFu128) by (bit_vector);
    }
    let code: u64 = (tag & 0xFFFF_FFFF_FFFF_FFFF) as u64;
    let hi: u64 = (tag >> 64) as u64;
    let kind: Option<EntityKind> = if code == 0 {
        Some(EntityKind::Wall)
    } else if code == 1 {
        Some(EntityKind::Ball)
    } else if code == 2 {
        Some(EntityKind::Brick)
    } else if code == 3 {
        Some(EntityKind::Paddle)
    } else {
        None
    };
    match kind {
        Some(k) => Some((k, if hi == 0 { None } else { Some(hi) })),
        None => None,
    }
}

/// Round-trip law: decoding an encoded tag yields the kind and owner that
/// were packed, for every kind and every representable owner, the absent one
/// included.
pub proof fn lemma_tag_round_trip(kind: EntityKind, owner: Option<u64>)
    requires
        valid_owner(owner),
    ensures
        spec_decode(spec_encode(kind, owner)) == Some((kind, owner)),
{
    let h = owner_bits(owner);
    let c = kind_code(kind);
    let t = spec_encode(kind, owner);
    assert((t & 0xFFFF_FFFF_FFFF_FFFFu128) as u64 == c && (t >> 64u128) as u64 == h)
        by (bit_vector)
        requires
            t == ((h as u128) << 64) | (c as u128),
            c <= 3,
    ;
}

/// Tag disjointness: two different (kind, owner) pairs never encode to the
/// same bit pattern, within the representable ranges.
pub proof fn lemma_tag_disjoint(
    k1: EntityKind,
    o1: Option<u64>,
    k2: EntityKind,
    o2: Option<u64>,
)
    requires
        valid_owner(o1),
        valid_owner(o2),
        k1 != k2 || o1 != o2,
    ensures
        spec_encode(k1, o1) != spec_encode(k2, o2),
{
    if spec_encode(k1, o1) == spec_encode(k2, o2) {
        lemma_tag_round_trip(k1, o1);
        lemma_tag_round_trip(k2, o2);
    }
}

} // verus!
