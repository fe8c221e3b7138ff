//! A match: every body on the field and the scores, and the tick that
//! advances it.
use vstd::prelude::*;
use crate::ball::{spec_ball_start, Ball};
use crate::bounding_box::BoundingBox;
use crate::collider::{self, Collider};
use crate::collision::overlaps;
use crate::constants::{
    LANE_HEIGHT, LANE_WIDTH, LEFT_PADDLE_START_X, PADDLE_START_Y, RIGHT_PADDLE_START_X,
    SCORE_ZONE_HEIGHT, SCORE_ZONE_WIDTH, SCORE_ZONE_X, TOP_WALL_Y, WALL_HEIGHT, WALL_WIDTH,
    WIN_SCORE,
};
use crate::geometry::{Transform, Vec2};
use crate::paddle::{Direction, Paddle, Side};
use crate::score::Score;
use crate::systems::{
    apply_friction, at_most_one_winner, boxes_wf, collide_ball, colliders_wf, detect_score,
    detect_win_condition, handle_score_event, inputs_bounded, inputs_view, move_ball,
    move_paddles, paddle_input, paddles_wf, resolve_all,
    spec_award, spec_first_event, spec_friction, spec_move_ball, spec_move_paddles,
    spec_paddle_input, spec_reset_ball, spec_reset_paddles, spec_score_events, spec_winner,
    lemma_first_index, lemma_first_score_event,
};
use crate::velocity::Velocity;
use crate::wall::Wall;

verus! {

/// Everything that a match holds. The match owns all of it, so that ending
/// the match removes every body at once.
pub struct Match {
    pub ball: Ball,
    /// The players' paddles.
    pub paddles: Vec<Paddle>,
    /// For each side, the area its paddle must stay wholly within.
    pub lanes: Vec<BoundingBox>,
    /// For each side, the area behind its paddle where the ball scores for
    /// the other side.
    pub score_zones: Vec<BoundingBox>,
    pub walls: Vec<Wall>,
    pub scores: Vec<Score>,
    /// The points that win the match.
    pub win_score: u64,
}

/// A match seen as mathematical values.
pub struct MatchView {
    pub ball: Ball,
    pub paddles: Seq<Paddle>,
    pub lanes: Seq<BoundingBox>,
    pub score_zones: Seq<BoundingBox>,
    pub walls: Seq<Wall>,
    pub scores: Seq<Score>,
    pub win_score: u64,
}

impl View for Match {
    type V = MatchView;

    open spec fn view(&self) -> MatchView {
        MatchView {
            ball: self.ball,
            paddles: self.paddles@,
            lanes: self.lanes@,
            score_zones: self.score_zones@,
            walls: self.walls@,
            scores: self.scores@,
            win_score: self.win_score,
        }
    }
}

/// What one tick of a match produced.
pub struct TickReport {
    /// One event per hit of the ball, in the order the colliders were tested.
    pub collisions: Vec<collider::Event>,
    /// The side that scored, if any.
    pub scored: Option<Side>,
    /// The side that won, if any.
    pub winner: Option<Side>,
}

/// The bodies the ball can hit: the walls, then the paddles.
pub open spec fn spec_colliders(walls: Seq<Wall>, paddles: Seq<Paddle>) -> Seq<Collider> {
    walls.map_values(|w: Wall| Collider { transform: w.transform, velocity: None })
        + paddles.map_values(
        |p: Paddle| Collider { transform: p.transform, velocity: Some(p.velocity) },
    )
}

/// Every wall has a well-formed rectangle.
pub open spec fn walls_wf(ws: Seq<Wall>) -> bool {
    forall|i: int| 0 <= i < ws.len() ==> (#[trigger] ws[i]).transform.wf()
}

impl MatchView {
    /// Every body is well formed.
    pub open spec fn wf(self) -> bool {
        &&& self.ball.wf()
        &&& paddles_wf(self.paddles)
        &&& boxes_wf(self.lanes)
        &&& boxes_wf(self.score_zones)
        &&& walls_wf(self.walls)
    }

    /// No one has won yet: every score is below the winning score.
    pub open spec fn live(self) -> bool {
        forall|i: int| 0 <= i < self.scores.len() ==> (#[trigger] self.scores[i]).value < self.win_score
    }

    /// The match after one tick, with the collision events, the side that
    /// scored and the side that won. In order: input sets paddle velocities,
    /// friction slows paddles, the ball and the paddles move, the ball is
    /// tested against each collider, then against the score zones; one point
    /// at most is handled, then the scores are checked for a winner.
    pub open spec fn spec_tick(self, inputs: Seq<Seq<Direction>>) -> (MatchView, Seq<
        collider::Event,
    >, Option<Side>, Option<Side>) {
        let ps1 = spec_friction(spec_paddle_input(self.paddles, inputs));
        let ball1 = spec_move_ball(self.ball);
        let ps2 = spec_move_paddles(ps1, self.lanes);
        let (v, hits) = resolve_all(ball1.transform, ball1.velocity, spec_colliders(self.walls, ps2));
        let ball2 = Ball { velocity: v, ..ball1 };
        let scored = spec_first_event(spec_score_events(ball2.transform, self.score_zones));
        let (ball3, ps3, scores) = match scored {
            Some(side) => (
                spec_reset_ball(ball2),
                spec_reset_paddles(ps2),
                spec_award(self.scores, side),
            ),
            None => (ball2, ps2, self.scores),
        };
        let winner = spec_winner(scores, self.win_score);
        (MatchView { ball: ball3, paddles: ps3, scores, ..self }, hits, scored, winner)
    }
}

/// A paddle for `side` placed at `x`, which is also its starting position.
pub open spec fn spec_start_paddle(side: Side, x: i64) -> Paddle {
    let p = Paddle::spec_new(side);
    let pos = Vec2 { x, y: PADDLE_START_Y };
    Paddle {
        transform: Transform { translation: pos, ..p.transform },
        player: crate::paddle::Player { starting_pos: pos, ..p.player },
        ..p
    }
}

/// A box for `side` centred at `(x, y)` with the given size.
pub open spec fn spec_box(x: i64, y: i64, w: i64, h: i64, side: Side) -> BoundingBox {
    BoundingBox { transform: Transform { translation: Vec2 { x, y }, scale: Vec2 { x: w, y: h } }, side }
}

/// A wall centred at `(0, y)`.
pub open spec fn spec_wall(y: i64) -> Wall {
    Wall { transform: Transform { translation: Vec2 { x: 0, y }, scale: Vec2 { x: WALL_WIDTH, y: WALL_HEIGHT } } }
}

/// A match as it starts: the ball served with `ball_velocity`, both paddles
/// at their starting positions, a lane and a score zone for each side, the
/// top and bottom walls, and both scores at zero.
pub open spec fn spec_initial_match(ball_velocity: Velocity) -> MatchView {
    MatchView {
        ball: Ball { transform: spec_ball_start(), velocity: ball_velocity },
        paddles: seq![
            spec_start_paddle(Side::Left, LEFT_PADDLE_START_X),
            spec_start_paddle(Side::Right, RIGHT_PADDLE_START_X),
        ],
        lanes: seq![
            spec_box(LEFT_PADDLE_START_X, PADDLE_START_Y, LANE_WIDTH, LANE_HEIGHT, Side::Left),
            spec_box(RIGHT_PADDLE_START_X, PADDLE_START_Y, LANE_WIDTH, LANE_HEIGHT, Side::Right),
        ],
        score_zones: seq![
            spec_box((-SCORE_ZONE_X) as i64, 0, SCORE_ZONE_WIDTH, SCORE_ZONE_HEIGHT, Side::Left),
            spec_box(SCORE_ZONE_X, 0, SCORE_ZONE_WIDTH, SCORE_ZONE_HEIGHT, Side::Right),
        ],
        walls: seq![spec_wall(TOP_WALL_Y), spec_wall((-TOP_WALL_Y) as i64)],
        scores: seq![Score { value: 0, side: Side::Left }, Score { value: 0, side: Side::Right }],
        win_score: WIN_SCORE,
    }
}

fn make_box(x: i64, y: i64, w: i64, h: i64, side: Side) -> (r: BoundingBox)
    ensures
        r == spec_box(x, y, w, h, side),
{
    BoundingBox { transform: Transform { translation: Vec2 { x, y }, scale: Vec2 { x: w, y: h } }, side }
}

fn make_wall(y: i64) -> (r: Wall)
    ensures
        r == spec_wall(y),
{
    Wall { transform: Transform { translation: Vec2 { x: 0, y }, scale: Vec2 { x: WALL_WIDTH, y: WALL_HEIGHT } } }
}

/// After one point for one side, at most one score can have reached the
/// winning score.
proof fn lemma_award_one_winner(scores: Seq<Score>, w: u64, side: Side)
    requires
        forall|i: int| 0 <= i < scores.len() ==> (#[trigger] scores[i]).value < w,
    ensures
        at_most_one_winner(spec_award(scores, side), w),
        spec_award(scores, side).len() == scores.len(),
{
    lemma_first_index(scores, |s: Score| s.side == side);
}

impl Match {
    pub open spec fn wf(&self) -> bool {
        self@.wf()
    }

    pub open spec fn live(&self) -> bool {
        self@.live()
    }

    /// Sets up a match, with the ball served at `ball_velocity`.
    pub fn new(ball_velocity: Velocity) -> (r: Match)
        requires
            ball_velocity.wf(),
        ensures
            r@ == spec_initial_match(ball_velocity),
            r.wf(),
            r.live(),
    {
        let left = Paddle::left_player().with_position(Vec2::new(LEFT_PADDLE_START_X, PADDLE_START_Y));
        let right = Paddle::right_player().with_position(
            Vec2::new(RIGHT_PADDLE_START_X, PADDLE_START_Y),
        );
        let left_zone_x = -SCORE_ZONE_X;
        let bottom_wall_y = -TOP_WALL_Y;
        let m = Match {
            ball: Ball::new(ball_velocity),
            paddles: vec![left, right],
            lanes: vec![
                make_box(LEFT_PADDLE_START_X, PADDLE_START_Y, LANE_WIDTH, LANE_HEIGHT, Side::Left),
                make_box(RIGHT_PADDLE_START_X, PADDLE_START_Y, LANE_WIDTH, LANE_HEIGHT, Side::Right),
            ],
            score_zones: vec![
                make_box(left_zone_x, 0, SCORE_ZONE_WIDTH, SCORE_ZONE_HEIGHT, Side::Left),
                make_box(SCORE_ZONE_X, 0, SCORE_ZONE_WIDTH, SCORE_ZONE_HEIGHT, Side::Right),
            ],
            walls: vec![make_wall(TOP_WALL_Y), make_wall(bottom_wall_y)],
            scores: vec![Score::new(0, Side::Left), Score::new(0, Side::Right)],
            win_score: WIN_SCORE,
        };
        assert(m@.paddles =~= spec_initial_match(ball_velocity).paddles);
        assert(m@.lanes =~= spec_initial_match(ball_velocity).lanes);
        assert(m@.score_zones =~= spec_initial_match(ball_velocity).score_zones);
        assert(m@.walls =~= spec_initial_match(ball_velocity).walls);
        assert(m@.scores =~= spec_initial_match(ball_velocity).scores);
        m
    }

    /// The bodies the ball can hit: the walls, then the paddles, each paddle
    /// with its velocity.
    pub fn colliders(&self) -> (r: Vec<Collider>)
        requires
            self.wf(),
        ensures
            r@ == spec_colliders(self.walls@, self.paddles@),
            colliders_wf(r@),
    {
        let mut r: Vec<Collider> = Vec::new();
        let mut i: usize = 0;
        while i < self.walls.len()
            invariant
                i <= self.walls@.len(),
                self.wf(),
                r@ =~= self.walls@.subrange(0, i as int).map_values(
                    |w: Wall| Collider { transform: w.transform, velocity: None },
                ),
                colliders_wf(r@),
            decreases self.walls@.len() - i,
        {
            r.push(Collider { transform: self.walls[i].transform, velocity: None });
            i = i + 1;
        }
        assert(self.walls@.subrange(0, self.walls@.len() as int) =~= self.walls@);
        let ghost nw = r@.len();
        let mut j: usize = 0;
        while j < self.paddles.len()
            invariant
                j <= self.paddles@.len(),
                self.wf(),
                nw == self.walls@.len(),
                r@ =~= self.walls@.map_values(
                    |w: Wall| Collider { transform: w.transform, velocity: None },
                ) + self.paddles@.subrange(0, j as int).map_values(
                    |p: Paddle| Collider { transform: p.transform, velocity: Some(p.velocity) },
                ),
                colliders_wf(r@),
            decreases self.paddles@.len() - j,
        {
            let p = self.paddles[j];
            r.push(Collider { transform: p.transform, velocity: Some(p.velocity) });
            j = j + 1;
        }
        assert(self.paddles@.subrange(0, self.paddles@.len() as int) =~= self.paddles@);
        r
    }

    /// Advances the match by one tick. `inputs[i]` holds the directions
    /// pressed for paddle `i`.
    pub fn tick(&mut self, inputs: &Vec<Vec<Direction>>) -> (r: TickReport)
        requires
            old(self).wf(),
            old(self).live(),
            inputs_bounded(inputs_view(inputs@)),
        ensures
            (final(self)@, r.collisions@, r.scored, r.winner) == old(self)@.spec_tick(
                inputs_view(inputs@),
            ),
            final(self).wf(),
            r.winner is None <==> final(self).live(),
    {
        let ghost m0 = self@;
        paddle_input(&mut self.paddles, inputs);
        apply_friction(&mut self.paddles);
        move_ball(&mut self.ball);
        move_paddles(&mut self.paddles, &self.lanes);
        let colliders = self.colliders();
        let collisions = collide_ball(&mut self.ball, &colliders);
        let events = detect_score(&self.ball, &self.score_zones);
        let scored = handle_score_event(&events, &mut self.ball, &mut self.paddles, &mut self.scores);
        proof {
            match scored {
                Some(side) => lemma_award_one_winner(m0.scores, m0.win_score, side),
                None => {},
            }
        }
        let winner = detect_win_condition(&self.scores, self.win_score);
        TickReport { collisions, scored, winner }
    }
}

/// Scoring resets the field: in a tick where a side scores, the ball ends at
/// the serving place with its velocity kept, every paddle at its own starting
/// position, and the first score of that side holds one point more; nothing
/// else of the scores changes.
pub proof fn lemma_score_resets(m: MatchView, inputs: Seq<Seq<Direction>>)
    ensures
        ({
            let (m2, _hits, scored, _winner) = m.spec_tick(inputs);
            scored matches Some(side) ==> {
                &&& m2.ball.transform.translation == spec_ball_start().translation
                &&& m2.paddles.len() == m.paddles.len()
                &&& forall|i: int|
                    0 <= i < m2.paddles.len() ==> (#[trigger] m2.paddles[i]).transform.translation
                        == m2.paddles[i].player.starting_pos && m2.paddles[i].player
                        == m.paddles[i].player
                &&& m2.scores == spec_award(m.scores, side)
            }
        }),
{
}

/// The scoring side of a tick: when, after the tick's motion and collisions,
/// the ball overlaps score zone `k` and no zone before it, that zone's
/// opposite side scores.
pub proof fn lemma_zone_scores_opposite(m: MatchView, inputs: Seq<Seq<Direction>>, k: int)
    requires
        0 <= k < m.score_zones.len(),
        overlaps(m.score_zones[k].transform, spec_move_ball(m.ball).transform),
        forall|j: int|
            0 <= j < k ==> !overlaps(
                #[trigger] m.score_zones[j].transform,
                spec_move_ball(m.ball).transform,
            ),
    ensures
        m.spec_tick(inputs).2 == Some(m.score_zones[k].side.spec_opposite()),
{
    lemma_first_score_event(spec_move_ball(m.ball).transform, m.score_zones, k);
}

} // verus!
