use breakout_core::tag::{EntityKind, decode, encode};

#[test]
fn round_trip_every_kind_without_owner() {
    for kind in [EntityKind::Wall, EntityKind::Ball, EntityKind::Brick, EntityKind::Paddle] {
        let tag = encode(kind, None);
        assert_eq!(decode(tag), Some((kind, None)));
    }
}

#[test]
fn round_trip_every_kind_with_owner() {
    for kind in [EntityKind::Wall, EntityKind::Ball, EntityKind::Brick, EntityKind::Paddle] {
        for owner in [1u64, 7, 42, u64::MAX] {
            let tag = encode(kind, Some(owner));
            assert_eq!(decode(tag), Some((kind, Some(owner))));
        }
    }
}

#[test]
fn kind_codes_match_field_layout() {
    // kind in the low 64 bits, owner in the high 64 bits
    assert_eq!(encode(EntityKind::Wall, None), 0);
    assert_eq!(encode(EntityKind::Ball, None), 1);
    assert_eq!(encode(EntityKind::Brick, None), 2);
    assert_eq!(encode(EntityKind::Paddle, None), 3);
    assert_eq!(encode(EntityKind::Brick, Some(7)), (7u128 << 64) | 2);
}

#[test]
fn unknown_kind_code_decodes_to_nothing() {
    assert_eq!(decode(4), None);
    assert_eq!(decode(99), None);
    assert_eq!(decode((5u128 << 64) | 200), None);
}

#[test]
fn distinct_pairs_encode_distinctly() {
    let tags = [
        encode(EntityKind::Wall, None),
        encode(EntityKind::Ball, Some(1)),
        encode(EntityKind::Brick, Some(1)),
        encode(EntityKind::Brick, Some(2)),
        encode(EntityKind::Paddle, None),
        encode(EntityKind::Ball, None),
    ];
    for i in 0..tags.len() {
        for j in 0..tags.len() {
            if i != j {
                assert_ne!(tags[i], tags[j]);
            }
        }
    }
}
