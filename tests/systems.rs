use bevy_pong::ball::Ball;
use bevy_pong::bounding_box::BoundingBox;
use bevy_pong::collider::{self, Collider};
use bevy_pong::collision::{collide, is_outside_bounds, Collision};
use bevy_pong::geometry::{Transform, Vec2};
use bevy_pong::paddle::{Paddle, Side};
use bevy_pong::systems::{collide_ball, detect_score, move_ball, move_paddles};
use bevy_pong::velocity::Velocity;

fn unit_square_at(x: i64, y: i64) -> Transform {
    Transform::new(Vec2::new(x, y), Vec2::new(1000, 1000)).unwrap()
}

#[test]
fn bounding_box_test_is_outside_bounds() {
    let bounds = unit_square_at(0, 0);
    let entity = unit_square_at(0, 0);
    assert!(!is_outside_bounds(&bounds, &entity));

    let bounds = unit_square_at(0, 0);
    let entity = unit_square_at(1000, 0);
    assert!(is_outside_bounds(&bounds, &entity));
}

#[test]
fn test_collision_intensity() {
    // Two bodies moving at the same speed in opposite directions
    let event = collider::Event::new(
        Collision::Inside,
        Velocity::new(5000, 0),
        Velocity::new(-5000, 0),
    );
    assert_eq!(event.intensity, 10_000);

    // Two bodies moving at the same speed in the same direction
    let event = collider::Event::new(Collision::Inside, Velocity::new(5000, 0), Velocity::new(5000, 0));
    assert_eq!(event.intensity, 0);

    // Angled velocities, each of magnitude 5
    let event = collider::Event::new(
        Collision::Inside,
        Velocity::new(3000, 4000),
        Velocity::new(-3000, -4000),
    );
    assert_eq!(event.intensity, 10_000);
}

fn run_ball_against(ball: &mut Ball, colliders: &Vec<Collider>, frames: usize) {
    for _ in 0..frames {
        move_ball(ball);
        collide_ball(ball, colliders);
    }
}

#[test]
fn ball_paddle_collision_test() {
    let paddle = Paddle::default().with_position(Vec2::new(10_000, 0));
    let colliders = vec![Collider { transform: paddle.transform, velocity: Some(paddle.velocity) }];
    let mut ball = Ball::new(Velocity::new(0, 0)).with_velocity(Velocity::new(5000, 0));
    run_ball_against(&mut ball, &colliders, 5);

    // y is unchanged
    assert_eq!(ball.transform.translation.y, 0);
    // The ball's centre starts on the paddle's left edge, so the engine finds
    // it inside the paddle: no side is hit and the ball keeps going right.
    assert!(ball.transform.translation.x > 0);
    assert_eq!(ball.velocity, Velocity::new(5000, 0));
}

#[test]
fn ball_bounces_off_paddle_face() {
    let paddle = Paddle::default().with_position(Vec2::new(10_000, 0));
    let colliders = vec![Collider { transform: paddle.transform, velocity: Some(paddle.velocity) }];
    let mut ball = Ball::new(Velocity::new(0, 0))
        .with_position(Vec2::new(-7_000, 0))
        .with_velocity(Velocity::new(50_000, 0));
    run_ball_against(&mut ball, &colliders, 20);

    assert_eq!(ball.transform.translation.y, 0);
    // The ball hit the paddle's left side and now moves left.
    assert!(ball.transform.translation.x < -7_000);
    assert_eq!(ball.velocity, Velocity::new(-50_000, 0));
}

#[test]
fn apply_velocity_to_paddles_test() {
    let mut paddles = vec![Paddle::default().with_velocity(Velocity::new(5000, 0))];
    let lanes: Vec<BoundingBox> = Vec::new();
    for _ in 0..5 {
        move_paddles(&mut paddles, &lanes);
    }
    assert_eq!(paddles[0].transform.translation.y, 0);
    assert!(paddles[0].transform.translation.x > 0);
    assert_eq!(paddles[0].transform.translation.x, 5 * 83);
}

#[test]
fn paddles_cant_escape_bounding_box() {
    let lane = BoundingBox::new(
        Transform::new(Vec2::new(0, 0), Vec2::new(100_000, 100_000)).unwrap(),
        Side::Left,
    );
    let lanes = vec![lane];
    let mut paddles = vec![Paddle::default()
        .with_velocity(Velocity::new(50_000, 0))
        .with_dimensions(1000, 1000)];
    for _ in 0..600 {
        move_paddles(&mut paddles, &lanes);
    }
    assert_eq!(paddles[0].transform.translation.y, 0);
    // The paddle stopped at the lane's edge.
    assert!(paddles[0].transform.translation.x < 50_000);
    assert!(paddles[0].transform.translation.x + 500 <= 50_000);
}

#[test]
fn collisions_are_resolved_in_collider_order() {
    // The ball touches a wall above it and a paddle to its right at once.
    let wall = Transform::new(Vec2::new(0, 10_000), Vec2::new(100_000, 10_000)).unwrap();
    let paddle = Transform::new(Vec2::new(14_000, 0), Vec2::new(20_000, 100_000)).unwrap();
    let colliders = vec![
        Collider { transform: wall, velocity: None },
        Collider { transform: paddle, velocity: Some(Velocity::new(0, 3000)) },
    ];
    let mut ball = Ball::new(Velocity::new(4000, 3000));
    let events = collide_ball(&mut ball, &colliders);
    assert_eq!(events.len(), 2);
    assert_eq!(events[0].kind, Collision::Bottom);
    assert_eq!(events[0].intensity, 5000);
    assert_eq!(events[1].kind, Collision::Left);
    // Relative velocity to the paddle: (0, 3000) - (4000, -3000).
    assert_eq!(events[1].intensity, 7211);
    assert_eq!(ball.velocity, Velocity::new(-4000, -3000));
    assert_eq!(collide(ball.transform, wall), Some(Collision::Bottom));
}

#[test]
fn score_zone_scores_for_the_other_side() {
    let zones = vec![
        BoundingBox::new(Transform::new(Vec2::new(-250_000, 0), Vec2::new(25_000, 500_000)).unwrap(), Side::Left),
        BoundingBox::new(Transform::new(Vec2::new(250_000, 0), Vec2::new(25_000, 500_000)).unwrap(), Side::Right),
    ];
    let ball = Ball::new(Velocity::new(0, 0)).with_position(Vec2::new(-240_000, 0));
    let events = detect_score(&ball, &zones);
    assert_eq!(events.len(), 1);
    assert_eq!(events[0].player_side, Side::Right);

    let ball = Ball::new(Velocity::new(0, 0));
    assert!(detect_score(&ball, &zones).is_empty());
}
