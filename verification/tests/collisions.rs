use breakout_core::model::{ContactEvent, PhysicsConfig};
use breakout_core::session::Session;
use breakout_core::tag::{EntityKind, decode};

fn new_session() -> Session {
    let config = PhysicsConfig {
        gravity_x: 0,
        gravity_y: 0,
        scale: 20,
        time_dependent_timesteps: true,
    };
    // an 800 by 600 pixel playfield with a 40 pixel wide paddle
    Session::new(config, 800_000, 40_000)
}

fn collider_of(s: &Session, id: u64) -> u64 {
    s.get_entity(id).unwrap().collider.unwrap()
}

fn body_of(s: &Session, id: u64) -> u64 {
    s.get_entity(id).unwrap().body.unwrap()
}

#[test]
fn scenario_one_brick_one_ball() {
    let mut s = new_session();
    // give the target brick the identifier 7
    for _ in 0..6 {
        s.spawn_brick(0, 0, 30_000, 10_000);
    }
    let brick = s.spawn_brick(0, 100_000, 30_000, 10_000);
    assert_eq!(brick, 7);
    let ball = s.spawn_ball(0, -50_000, 3_000_000, -12_000_000);
    let bc = collider_of(&s, brick);
    let bb = body_of(&s, brick);
    let ballc = collider_of(&s, ball);
    assert_eq!(s.get_score(), 0);

    s.resolve_contact_events(&vec![ContactEvent::Started(bc, ballc)]);

    assert!(!s.entity_exists(7));
    assert!(!s.collider_exists(bc));
    assert!(!s.body_exists(bb));
    assert_eq!(s.get_score(), 10);
    // the ball survives
    assert!(s.entity_exists(ball));
    assert!(s.collider_exists(ballc));
}

#[test]
fn scenario_two_events_one_brick() {
    let mut s = new_session();
    for _ in 0..2 {
        s.spawn_brick(0, 0, 30_000, 10_000);
    }
    let brick = s.spawn_brick(0, 100_000, 30_000, 10_000);
    assert_eq!(brick, 3);
    let ball = s.spawn_ball(0, -50_000, 3_000_000, -12_000_000);
    let paddle = s.spawn_paddle(0, -215_000, 40_000, 5_000, 1_000_000);
    let bc = collider_of(&s, brick);
    let ballc = collider_of(&s, ball);
    let paddlec = collider_of(&s, paddle);

    // both events reference brick 3 in the same drain batch
    s.resolve_contact_events(
        &vec![ContactEvent::Started(bc, ballc), ContactEvent::Started(bc, paddlec)],
    );

    assert_eq!(s.get_score(), 10);
    assert!(!s.entity_exists(brick));
    assert!(s.entity_exists(ball));
    assert!(s.entity_exists(paddle));
}

#[test]
fn idempotent_destruction_same_event_twice() {
    let mut s = new_session();
    let brick = s.spawn_brick(0, 0, 30_000, 10_000);
    let ball = s.spawn_ball(0, -50_000, 0, 0);
    let bc = collider_of(&s, brick);
    let ballc = collider_of(&s, ball);
    let ev = ContactEvent::Started(bc, ballc);

    s.resolve_contact_events(&vec![ev, ev]);

    assert_eq!(s.get_score(), 10);
    assert!(!s.entity_exists(brick));
}

#[test]
fn wall_contact_is_physics_only() {
    let mut s = new_session();
    let wall = s.spawn_wall(-400_000, 0, 25_000, 625_000);
    let brick = s.spawn_brick(0, 0, 30_000, 10_000);
    let ball = s.spawn_ball(0, -50_000, 0, 0);
    let wc = collider_of(&s, wall);
    let bc = collider_of(&s, brick);
    let ballc = collider_of(&s, ball);

    s.resolve_contact_events(
        &vec![ContactEvent::Started(wc, ballc), ContactEvent::Started(bc, wc)],
    );

    assert_eq!(s.get_score(), 0);
    assert!(s.entity_exists(wall));
    assert!(s.entity_exists(brick));
    assert!(s.entity_exists(ball));
}

#[test]
fn brick_against_brick_destroys_both() {
    let mut s = new_session();
    let b1 = s.spawn_brick(0, 0, 30_000, 10_000);
    let b2 = s.spawn_brick(31_000, 0, 30_000, 10_000);
    let c1 = collider_of(&s, b1);
    let c2 = collider_of(&s, b2);

    s.resolve_contact_events(&vec![ContactEvent::Started(c1, c2)]);

    assert_eq!(s.get_score(), 20);
    assert!(!s.entity_exists(b1));
    assert!(!s.entity_exists(b2));
}

#[test]
fn contact_stop_events_produce_no_action() {
    let mut s = new_session();
    let brick = s.spawn_brick(0, 0, 30_000, 10_000);
    let ball = s.spawn_ball(0, -50_000, 0, 0);
    let bc = collider_of(&s, brick);
    let ballc = collider_of(&s, ball);

    s.resolve_contact_events(&vec![ContactEvent::Stopped(bc, ballc)]);

    assert_eq!(s.get_score(), 0);
    assert!(s.entity_exists(brick));
}

#[test]
fn destruction_is_atomic() {
    let mut s = new_session();
    let brick = s.spawn_brick(0, 0, 30_000, 10_000);
    let bc = collider_of(&s, brick);
    let bb = body_of(&s, brick);

    let destroyed = s.destroy_entity(brick);

    assert!(destroyed);
    assert!(!s.entity_exists(brick));
    assert!(!s.collider_exists(bc));
    assert!(!s.body_exists(bb));
}

#[test]
fn destroying_a_dead_identifier_is_a_no_op() {
    let mut s = new_session();
    let brick = s.spawn_brick(0, 0, 30_000, 10_000);
    assert!(s.destroy_entity(brick));
    assert!(!s.destroy_entity(brick));
    assert!(!s.destroy_entity(999));
    assert_eq!(s.get_score(), 0);
}

#[test]
fn spawned_collider_tags_decode_to_kind_and_owner() {
    let mut s = new_session();
    let wall = s.spawn_wall(-400_000, 0, 25_000, 625_000);
    let brick = s.spawn_brick(0, 0, 30_000, 10_000);
    let ball = s.spawn_ball(0, -50_000, 0, 0);
    let paddle = s.spawn_paddle(0, -215_000, 40_000, 5_000, 1_000_000);

    let tag_of = |s: &Session, id: u64| s.get_collider(collider_of(s, id)).unwrap().tag;
    assert_eq!(decode(tag_of(&s, wall)), Some((EntityKind::Wall, None)));
    assert_eq!(decode(tag_of(&s, brick)), Some((EntityKind::Brick, Some(brick))));
    assert_eq!(decode(tag_of(&s, ball)), Some((EntityKind::Ball, Some(ball))));
    assert_eq!(decode(tag_of(&s, paddle)), Some((EntityKind::Paddle, None)));
}

#[test]
fn score_is_monotone_across_batches() {
    let mut s = new_session();
    let mut ids = Vec::new();
    for k in 0..5i64 {
        ids.push(s.spawn_brick(31_000 * k, 0, 30_000, 10_000));
    }
    let ball = s.spawn_ball(0, -50_000, 0, 0);
    let ballc = collider_of(&s, ball);
    let mut last = s.get_score();
    for id in ids {
        let bc = collider_of(&s, id);
        s.resolve_contact_events(&vec![ContactEvent::Started(bc, ballc)]);
        let now = s.get_score();
        assert!(now >= last);
        assert_eq!(now, last + 10);
        last = now;
    }
    assert_eq!(s.get_score(), 50);
}
