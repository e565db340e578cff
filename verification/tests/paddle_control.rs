use breakout_core::model::PhysicsConfig;
use breakout_core::paddle::step_paddle;
use breakout_core::session::Session;

const SPEED: i64 = 1_000_000;
const HALF: i64 = 19_000_000;

fn new_session() -> Session {
    let config = PhysicsConfig {
        gravity_x: 0,
        gravity_y: 0,
        scale: 20,
        time_dependent_timesteps: true,
    };
    Session::new(config, 800_000, 40_000)
}

#[test]
fn one_step_per_direction() {
    assert_eq!(step_paddle(0, false, true, SPEED, HALF), SPEED);
    assert_eq!(step_paddle(0, true, false, SPEED, HALF), -SPEED);
    assert_eq!(step_paddle(5_000_000, false, true, SPEED, HALF), 6_000_000);
    assert_eq!(step_paddle(5_000_000, true, false, SPEED, HALF), 4_000_000);
}

#[test]
fn no_net_input_means_no_motion() {
    assert_eq!(step_paddle(5_000_000, false, false, SPEED, HALF), 5_000_000);
    assert_eq!(step_paddle(5_000_000, true, true, SPEED, HALF), 5_000_000);
}

#[test]
fn clamped_at_both_edges() {
    assert_eq!(step_paddle(HALF, false, true, SPEED, HALF), HALF);
    assert_eq!(step_paddle(-HALF, true, false, SPEED, HALF), -HALF);
    assert_eq!(step_paddle(HALF - 1, false, true, SPEED, HALF), HALF);
    assert_eq!(step_paddle(-HALF + 1, true, false, SPEED, HALF), -HALF);
}

#[test]
fn any_input_sequence_stays_in_range() {
    let mut x: i64 = 0;
    let script = [
        (false, true),
        (false, true),
        (true, false),
        (false, true),
        (true, true),
        (false, false),
        (true, false),
    ];
    for _ in 0..30 {
        for (left, right) in script {
            x = step_paddle(x, left, right, SPEED, HALF);
            assert!(-HALF <= x && x <= HALF);
        }
    }
}

#[test]
fn controller_moves_the_kinematic_body() {
    let mut s = new_session();
    let paddle = s.spawn_paddle(0, -215_000, 40_000, 5_000, SPEED);
    let bh = s.get_entity(paddle).unwrap().body.unwrap();
    assert_eq!(s.get_body(bh).unwrap().x, 0);
    // the vertical position came from the visual position through the scale
    assert_eq!(s.get_body(bh).unwrap().y, -10_750_000);

    s.control_paddle(false, true);
    assert_eq!(s.get_body(bh).unwrap().x, SPEED);
    s.control_paddle(true, false);
    s.control_paddle(true, false);
    assert_eq!(s.get_body(bh).unwrap().x, -SPEED);
    // vertical position is never modified
    assert_eq!(s.get_body(bh).unwrap().y, -10_750_000);
}

#[test]
fn scenario_move_right_at_the_rightmost_clamp() {
    let mut s = new_session();
    let paddle = s.spawn_paddle(0, -215_000, 40_000, 5_000, SPEED);
    let bh = s.get_entity(paddle).unwrap().body.unwrap();
    // drive the paddle to the rightmost clamp position and beyond
    for _ in 0..25 {
        s.control_paddle(false, true);
    }
    assert_eq!(s.get_body(bh).unwrap().x, HALF);
    // one further "move right" input leaves the position unchanged
    s.control_paddle(false, true);
    assert_eq!(s.get_body(bh).unwrap().x, HALF);
}

#[test]
fn controller_without_a_paddle_is_a_no_op() {
    let mut s = new_session();
    let ball = s.spawn_ball(0, -50_000, 0, 0);
    let bh = s.get_entity(ball).unwrap().body.unwrap();
    s.control_paddle(false, true);
    assert_eq!(s.get_body(bh).unwrap().x, 0);
}
