use breakout_core::model::{EntityData, Mobility, PhysicsConfig, Shape};
use breakout_core::scoreboard::{ScoreLabel, score_digits};
use breakout_core::setup::brick_grid_origin;
use breakout_core::session::Session;
use breakout_core::tag::{EntityKind, decode};
use breakout_core::units::{half_physics, to_physics};

fn new_session() -> Session {
    let config = PhysicsConfig {
        gravity_x: 0,
        gravity_y: 0,
        scale: 20,
        time_dependent_timesteps: true,
    };
    Session::new(config, 800_000, 40_000)
}

#[test]
fn digits_render_exactly() {
    assert_eq!(score_digits(0), b"0".to_vec());
    assert_eq!(score_digits(7), b"7".to_vec());
    assert_eq!(score_digits(10), b"10".to_vec());
    assert_eq!(score_digits(12345), b"12345".to_vec());
    assert_eq!(score_digits(u32::MAX), b"4294967295".to_vec());
}

#[test]
fn label_mirrors_the_score() {
    let mut label = ScoreLabel::new();
    assert!(label.text.is_empty());
    label.sync(0);
    assert_eq!(label.text, b"0".to_vec());
    label.sync(130);
    assert_eq!(label.text, b"130".to_vec());
}

#[test]
fn unit_conversion_uses_the_scale_factor() {
    // -50 pixels at scale 20 is -2.5 physics units
    assert_eq!(to_physics(-50_000, 20), -2_500_000);
    assert_eq!(to_physics(800_000, 20), 40_000_000);
    assert_eq!(to_physics(0, 20), 0);
    // a 40 pixel extent at scale 20 is a half-extent of one physics unit
    assert_eq!(half_physics(40_000, 20), 1_000_000);
    assert_eq!(half_physics(30_000, 20), 750_000);
}

#[test]
fn grid_origin_centres_the_columns() {
    // 22 columns of 30 pixel bricks with 1 pixel spacing
    assert_eq!(brick_grid_origin(22, 30_000, 1_000), -325_500);
    assert_eq!(brick_grid_origin(1, 30_000, 1_000), 0);
}

#[test]
fn walls_surround_the_playfield() {
    let mut s = new_session();
    s.setup_walls(800_000, 600_000, 25_000);
    let mut found = 0;
    for id in 1..5u64 {
        let e = s.get_entity(id).unwrap();
        assert!(matches!(e.data, EntityData::Wall));
        let c = s.get_collider(e.collider.unwrap()).unwrap();
        assert_eq!(c.restitution, 1000);
        assert_eq!(c.friction, 0);
        assert_eq!(decode(c.tag), Some((EntityKind::Wall, None)));
        let b = s.get_body(e.body.unwrap()).unwrap();
        assert!(matches!(b.mobility, Mobility::Static));
        found += 1;
    }
    assert_eq!(found, 4);
    // left and right walls sit at the horizontal bounds
    let left = s.get_entity(1).unwrap();
    let right = s.get_entity(2).unwrap();
    assert_eq!(left.x_px, -400_000);
    assert_eq!(right.x_px, 400_000);
    assert_eq!(left.h_px, 625_000);
}

#[test]
fn brick_grid_lays_out_rows_and_columns() {
    let mut s = new_session();
    let x0 = brick_grid_origin(3, 30_000, 1_000);
    s.spawn_brick_grid(2, 3, x0, 100_000, 30_000, 10_000, 1_000);
    // six bricks under the identifiers 1 to 6, row by row
    for id in 1..7u64 {
        let e = s.get_entity(id).unwrap();
        assert!(matches!(e.data, EntityData::Brick));
        let j = id - 1;
        let col = (j % 3) as i64;
        let row = (j / 3) as i64;
        assert_eq!(e.x_px, x0 + col * 31_000);
        assert_eq!(e.y_px, 100_000 + row * 11_000);
        let c = s.get_collider(e.collider.unwrap()).unwrap();
        assert_eq!(decode(c.tag), Some((EntityKind::Brick, Some(id))));
        assert_eq!(c.restitution, 1000);
        assert_eq!(c.friction, 500);
        assert!(matches!(
            c.shape,
            Shape::Box { half_x: 750_000, half_y: 250_000 }
        ));
    }
    assert!(!s.entity_exists(7));
}

#[test]
fn ball_spawn_applies_velocity_and_radius() {
    let mut s = new_session();
    let ball = s.spawn_ball(0, -50_000, 3_000_000, -12_000_000);
    let e = s.get_entity(ball).unwrap();
    let b = s.get_body(e.body.unwrap()).unwrap();
    assert!(matches!(b.mobility, Mobility::Dynamic));
    assert_eq!(b.y, -2_500_000);
    assert_eq!(b.vx, 3_000_000);
    assert_eq!(b.vy, -12_000_000);
    let c = s.get_collider(e.collider.unwrap()).unwrap();
    // a 5 pixel radius at scale 20 is a quarter of a physics unit
    assert!(matches!(c.shape, Shape::Circle { radius: 250_000 }));
}

#[test]
fn paddle_spawn_is_kinematic_and_extra_bouncy() {
    let mut s = new_session();
    let paddle = s.spawn_paddle(0, -215_000, 40_000, 5_000, 1_000_000);
    let e = s.get_entity(paddle).unwrap();
    assert!(matches!(e.data, EntityData::Paddle { speed: 1_000_000 }));
    let b = s.get_body(e.body.unwrap()).unwrap();
    assert!(matches!(b.mobility, Mobility::Kinematic));
    let c = s.get_collider(e.collider.unwrap()).unwrap();
    assert_eq!(c.restitution, 2000);
    assert_eq!(c.friction, 1000);
    assert!(matches!(
        c.shape,
        Shape::RoundedBox { half_x: 1_000_000, half_y: 125_000, corner: 125_000 }
    ));
}
