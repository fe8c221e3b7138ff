use bevy_pong::ball::{serve_velocity, Ball};
use bevy_pong::collider::{self, reflect};
use bevy_pong::collision::{collide, is_completely_inside_bounds, is_inside_bounds, Collision};
use bevy_pong::constants::{
    BALL_MAX_AXIS_SPEED, BALL_MIN_AXIS_SPEED, LANE_HEIGHT, LANE_WIDTH, LEFT_PADDLE_START_X,
    RIGHT_PADDLE_START_X, SCORE_ZONE_X, WIN_SCORE,
};
use bevy_pong::game::Match;
use bevy_pong::geometry::{Transform, Vec2};
use bevy_pong::paddle::{paddle_velocity, Direction, Paddle, Side};
use bevy_pong::score::Score;
use bevy_pong::states::{AppState, Game};
use bevy_pong::systems::{check_collision, detect_win_condition};
use bevy_pong::velocity::{Friction, Velocity};

fn unit_square_at(x: i64, y: i64) -> Transform {
    Transform::new(Vec2::new(x, y), Vec2::new(1000, 1000)).unwrap()
}

fn no_input() -> Vec<Vec<Direction>> {
    vec![Vec::new(), Vec::new()]
}

#[test]
fn side_classification_of_unit_squares() {
    let a = unit_square_at(0, 0);
    assert_eq!(collide(a, a), Some(Collision::Inside));
    assert_eq!(collide(unit_square_at(1000, 0), a), None);
    assert_eq!(collide(unit_square_at(-1000, 0), a), None);
    assert_eq!(collide(unit_square_at(750, 0), a), Some(Collision::Right));
    assert_eq!(collide(unit_square_at(-750, 0), a), Some(Collision::Left));
    assert_eq!(collide(unit_square_at(0, 750), a), Some(Collision::Top));
    assert_eq!(collide(unit_square_at(0, -750), a), Some(Collision::Bottom));
    // A centre within `INSIDE_EPSILON` of the other body counts as inside.
    assert_eq!(collide(unit_square_at(505, 0), a), Some(Collision::Inside));
    assert_eq!(collide(unit_square_at(510, 0), a), Some(Collision::Right));
}

#[test]
fn malformed_rectangles_are_refused() {
    assert!(Transform::new(Vec2::new(0, 0), Vec2::new(-1, 10)).is_none());
    assert!(Transform::new(Vec2::new(0, 0), Vec2::new(10, 0)).is_none());
    assert!(Transform::new(Vec2::new(0, 0), Vec2::new(10, 10)).is_some());
}

#[test]
fn containment_is_stronger_than_overlap() {
    let bounds = Transform::new(Vec2::new(0, 0), Vec2::new(10_000, 10_000)).unwrap();
    let half_out = Transform::new(Vec2::new(5_000, 0), Vec2::new(2_000, 2_000)).unwrap();
    let on_edge = Transform::new(Vec2::new(4_000, 0), Vec2::new(2_000, 2_000)).unwrap();
    assert!(is_inside_bounds(&bounds, &half_out));
    assert!(!is_completely_inside_bounds(&bounds, &half_out));
    assert!(is_completely_inside_bounds(&bounds, &on_edge));
}

#[test]
fn reflection_flips_once() {
    let v = Velocity::new(5000, 3000);
    let once = reflect(Collision::Left, v);
    assert_eq!(once, Velocity::new(-5000, 3000));
    assert_eq!(reflect(Collision::Left, once), once);
    assert_eq!(reflect(Collision::Right, Velocity::new(-2, 7)), Velocity::new(2, 7));
    assert_eq!(reflect(Collision::Top, Velocity::new(1, -4)), Velocity::new(1, 4));
    assert_eq!(reflect(Collision::Bottom, Velocity::new(1, 4)), Velocity::new(1, -4));
    assert_eq!(reflect(Collision::Inside, v), v);
}

#[test]
fn intensity_rounds_down() {
    let e = collider::Event::new(Collision::Top, Velocity::new(1, 1), Velocity::new(0, 0));
    assert_eq!(e.intensity, 1);
    let e = collider::Event::new(Collision::Top, Velocity::new(1000, 1000), Velocity::new(0, 0));
    assert_eq!(e.intensity, 1414);
    assert!(e.plays_sound());
    assert!(!collider::Event::default().plays_sound());
}

#[test]
fn side_involution() {
    assert_eq!(Side::Left.opposite().opposite(), Side::Left);
    assert_eq!(Side::Right.opposite().opposite(), Side::Right);
    assert_eq!(Side::Left.opposite(), Side::Right);
}

#[test]
fn friction_decays_toward_zero() {
    let mut v = Velocity::new(1000, -1000);
    v.apply_friction(Friction(500));
    assert_eq!(v, Velocity::new(500, -500));
    let mut v = Velocity::new(3, -3);
    v.apply_friction(Friction(100));
    assert_eq!(v, Velocity::new(0, 0));
    let mut v = Velocity::new(7, -7);
    v.apply_friction(Friction(1000));
    assert_eq!(v, Velocity::new(7, -7));
}

#[test]
fn tick_displacement_rounds_toward_zero() {
    assert_eq!(Velocity::new(6000, -6000).tick_displacement(), Vec2::new(100, -100));
    assert_eq!(Velocity::new(59, -59).tick_displacement(), Vec2::new(0, 0));
    assert_eq!(Velocity::new(61, -61).tick_displacement(), Vec2::new(1, -1));
    assert_eq!(Velocity::new(2, 3).new_position(Vec2::new(10, 10)), Vec2::new(12, 13));
}

#[test]
fn input_blends_directions() {
    assert_eq!(paddle_velocity(&vec![]), None);
    assert_eq!(
        paddle_velocity(&vec![Direction::Up, Direction::Right]),
        Some(Velocity::new(40_000, 40_000))
    );
    assert_eq!(paddle_velocity(&vec![Direction::Up, Direction::Down]), Some(Velocity::new(0, 0)));
    assert_eq!(paddle_velocity(&vec![Direction::Left]), Some(Velocity::new(-40_000, 0)));
}

#[test]
fn serve_velocity_is_scaled_and_limited() {
    // The lowest sample serves at full speed to the left or downward.
    assert_eq!(serve_velocity(0, 0), Velocity::new(-50_000, -50_000));
    // The highest serves just below full speed to the right or upward.
    assert_eq!(serve_velocity(u32::MAX, 0x8000_0000), Velocity::new(49_999, BALL_MIN_AXIS_SPEED));
    assert_eq!(serve_velocity(0xC000_0000, 0x2000_0000), Velocity::new(25_000, -37_500));
    assert_eq!(serve_velocity(0x7000_0000, 0xE000_0000), Velocity::new(-BALL_MIN_AXIS_SPEED, 37_500));
    let b = Ball::default();
    for c in [b.velocity.0.x, b.velocity.0.y] {
        let m = c.abs();
        assert!(BALL_MIN_AXIS_SPEED <= m && m <= 50_000 && m <= BALL_MAX_AXIS_SPEED);
    }
}

#[test]
fn check_collision_reflects_a_mover_moving_in() {
    let collider = unit_square_at(0, 0);
    // The mover is to the right of the collider and moves left into it.
    let mover = unit_square_at(750, 0);
    assert_eq!(
        check_collision(&mover, Velocity::new(-1000, 200), &collider),
        Some(Velocity::new(1000, 200))
    );
    // Moving away, it keeps its velocity.
    assert_eq!(
        check_collision(&mover, Velocity::new(1000, 200), &collider),
        Some(Velocity::new(1000, 200))
    );
    assert_eq!(check_collision(&unit_square_at(2000, 0), Velocity::new(-1000, 0), &collider), None);
}

#[test]
fn score_and_reset_end_to_end() {
    let mut m = Match::new(Velocity::new(0, 0));
    m.ball.transform.translation = Vec2::new(-SCORE_ZONE_X, 0);
    m.paddles[0].transform.translation = Vec2::new(LEFT_PADDLE_START_X, 100_000);
    m.paddles[1].transform.translation = Vec2::new(RIGHT_PADDLE_START_X, -100_000);
    let report = m.tick(&no_input());
    assert_eq!(report.scored, Some(Side::Right));
    assert_eq!(report.winner, None);
    assert_eq!(m.scores[0], Score::new(0, Side::Left));
    assert_eq!(m.scores[1], Score::new(1, Side::Right));
    assert_eq!(m.ball.transform.translation, Vec2::new(0, 0));
    assert_eq!(m.paddles[0].transform.translation, Vec2::new(LEFT_PADDLE_START_X, 0));
    assert_eq!(m.paddles[1].transform.translation, Vec2::new(RIGHT_PADDLE_START_X, 0));
}

#[test]
fn win_threshold_ends_the_match() {
    let scores = vec![Score::new(0, Side::Left), Score::new(0, Side::Right)];
    assert_eq!(detect_win_condition(&scores, 1), None);
    let scores = vec![Score::new(0, Side::Left), Score::new(1, Side::Right)];
    assert_eq!(detect_win_condition(&scores, 1), Some(Side::Right));
    assert_eq!(WIN_SCORE, 5);

    let mut game = Game::new();
    assert_eq!(game.state, AppState::MainMenu);
    let report = game.tick(&no_input());
    assert!(report.is_none());

    assert!(game.read_keypresses(true));
    assert_eq!(game.state, AppState::InGame);
    assert!(game.has_active_match());
    assert!(!game.read_keypresses(true));

    {
        let m = game.active_match.as_mut().unwrap();
        m.win_score = 1;
        m.ball.velocity = Velocity::new(0, 0);
    }
    let report = game.tick(&no_input()).unwrap();
    assert_eq!(report.winner, None);
    assert_eq!(game.state, AppState::InGame);

    game.active_match.as_mut().unwrap().ball.transform.translation = Vec2::new(-SCORE_ZONE_X, 0);
    let report = game.tick(&no_input()).unwrap();
    assert_eq!(report.scored, Some(Side::Right));
    assert_eq!(report.winner, Some(Side::Right));
    assert_eq!(game.state, AppState::MainMenu);
    assert!(game.no_active_match());
}

#[test]
fn paddle_stays_in_lane() {
    let mut m = Match::new(Velocity::new(0, 0));
    let up = vec![vec![Direction::Up], vec![Direction::Down, Direction::Right]];
    let lane_top = LANE_HEIGHT / 2;
    let lane_right = RIGHT_PADDLE_START_X + LANE_WIDTH / 2;
    for _ in 0..2000 {
        m.tick(&up);
        let left = m.paddles[0].transform;
        let right = m.paddles[1].transform;
        assert!(left.translation.y + left.scale.y / 2 <= lane_top);
        assert!(right.translation.y - right.scale.y / 2 >= -lane_top);
        assert!(right.translation.x + right.scale.x / 2 <= lane_right);
    }
    // Both paddles have reached the lane's edge.
    assert!(m.paddles[0].transform.translation.y + 50_000 > lane_top - 700);
}

#[test]
fn paddle_builders() {
    let p = Paddle::right_player().with_position(Vec2::new(3, 4));
    assert_eq!(p.player.side, Side::Right);
    assert_eq!(p.player.starting_pos, Vec2::new(3, 4));
    assert_eq!(p.transform.translation, Vec2::new(3, 4));
    assert_eq!(Paddle::left_player().player.side, Side::Left);
}
