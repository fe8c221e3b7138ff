//! The steps of one simulation tick: input, friction, motion, collision
//! resolution, score detection, score handling and the win check.
use vstd::prelude::*;
use crate::ball::{spec_ball_start, Ball};
use crate::bounding_box::BoundingBox;
use crate::collider::{self, reflect, spec_reflect, Collider};
use crate::collision::{
    collide, contains, is_completely_inside_bounds, is_inside_bounds, overlaps, spec_collide,
};
use crate::constants::{BALL_START_X, BALL_START_Y, MAX_PRESSED_DIRECTIONS, PADDLE_SPEED_MULTIPLIER};
use crate::geometry::{Transform, Vec2};
use crate::paddle::{paddle_velocity, sum_x, sum_y, Direction, Paddle, Side};
use crate::score::{self, Score};
use crate::velocity::Velocity;

verus! {

/// Index of the first element of `s` that satisfies `p`; `s.len()` when none
/// does.
pub open spec fn first_index<T>(s: Seq<T>, p: spec_fn(T) -> bool) -> int
    decreases s.len(),
{
    if s.len() == 0 {
        0
    } else if p(s[0]) {
        0
    } else {
        1 + first_index(s.skip(1), p)
    }
}

/// `first_index` points at the first match, or past the end when there is none.
pub proof fn lemma_first_index<T>(s: Seq<T>, p: spec_fn(T) -> bool)
    ensures
        0 <= first_index(s, p) <= s.len(),
        forall|j: int| 0 <= j < first_index(s, p) ==> !p(#[trigger] s[j]),
        first_index(s, p) < s.len() ==> p(s[first_index(s, p)]),
    decreases s.len(),
{
    if s.len() > 0 && !p(s[0]) {
        lemma_first_index(s.skip(1), p);
        assert forall|j: int| 0 <= j < first_index(s, p) implies !p(#[trigger] s[j]) by {
            if j > 0 {
                assert(s[j] == s.skip(1)[j - 1]);
            }
        }
    }
}

proof fn lemma_first_index_at<T>(s: Seq<T>, p: spec_fn(T) -> bool, i: int)
    requires
        0 <= i <= s.len(),
        forall|j: int| 0 <= j < i ==> !p(#[trigger] s[j]),
        i < s.len() ==> p(s[i]),
    ensures
        first_index(s, p) == i,
{
    lemma_first_index(s, p);
}

/// Index of the first box that belongs to `side`.
pub open spec fn box_index(boxes: Seq<BoundingBox>, side: Side) -> int {
    first_index(boxes, |b: BoundingBox| b.side == side)
}

/// Index of the first score that belongs to `side`.
pub open spec fn score_index(scores: Seq<Score>, side: Side) -> int {
    first_index(scores, |s: Score| s.side == side)
}

/// Index of the first score that reached `win_score`.
pub open spec fn winner_index(scores: Seq<Score>, win_score: u64) -> int {
    first_index(scores, |s: Score| s.value >= win_score)
}

fn find_box(boxes: &Vec<BoundingBox>, side: Side) -> (r: usize)
    ensures
        r == box_index(boxes@, side),
        r <= boxes@.len(),
{
    let mut i: usize = 0;
    while i < boxes.len()
        invariant
            i <= boxes@.len(),
            forall|j: int| 0 <= j < i ==> (#[trigger] boxes@[j]).side != side,
        ensures
            i <= boxes@.len(),
            forall|j: int| 0 <= j < i ==> (#[trigger] boxes@[j]).side != side,
            i < boxes@.len() ==> boxes@[i as int].side == side,
        decreases boxes@.len() - i,
    {
        if boxes[i].side == side {
            break;
        }
        i = i + 1;
    }
    proof {
        lemma_first_index_at(boxes@, |b: BoundingBox| b.side == side, i as int);
    }
    i
}

fn find_score(scores: &Vec<Score>, side: Side) -> (r: usize)
    ensures
        r == score_index(scores@, side),
        r <= scores@.len(),
{
    let mut i: usize = 0;
    while i < scores.len()
        invariant
            i <= scores@.len(),
            forall|j: int| 0 <= j < i ==> (#[trigger] scores@[j]).side != side,
        ensures
            i <= scores@.len(),
            forall|j: int| 0 <= j < i ==> (#[trigger] scores@[j]).side != side,
            i < scores@.len() ==> scores@[i as int].side == side,
        decreases scores@.len() - i,
    {
        if scores[i].side == side {
            break;
        }
        i = i + 1;
    }
    proof {
        lemma_first_index_at(scores@, |s: Score| s.side == side, i as int);
    }
    i
}

/// Every paddle is well formed.
pub open spec fn paddles_wf(ps: Seq<Paddle>) -> bool {
    forall|i: int| 0 <= i < ps.len() ==> (#[trigger] ps[i]).wf()
}

/// Every box has a well-formed rectangle.
pub open spec fn boxes_wf(bs: Seq<BoundingBox>) -> bool {
    forall|i: int| 0 <= i < bs.len() ==> (#[trigger] bs[i]).transform.wf()
}

/// Every collider is well formed.
pub open spec fn colliders_wf(cs: Seq<Collider>) -> bool {
    forall|i: int| 0 <= i < cs.len() ==> (#[trigger] cs[i]).wf()
}

/// The directions pressed for each paddle, as sequences.
pub open spec fn inputs_view(inputs: Seq<Vec<Direction>>) -> Seq<Seq<Direction>> {
    inputs.map_values(|v: Vec<Direction>| v@)
}

/// No paddle's input holds more directions than a velocity can carry.
pub open spec fn inputs_bounded(inputs: Seq<Seq<Direction>>) -> bool {
    forall|i: int| 0 <= i < inputs.len() ==> (#[trigger] inputs[i]).len() <= MAX_PRESSED_DIRECTIONS
}

/// A paddle after the directions `pressed` were applied to it.
pub open spec fn spec_input(p: Paddle, pressed: Seq<Direction>) -> Paddle {
    if pressed.len() == 0 {
        p
    } else {
        Paddle {
            velocity: Velocity(
                Vec2 {
                    x: (sum_x(pressed) * PADDLE_SPEED_MULTIPLIER) as i64,
                    y: (sum_y(pressed) * PADDLE_SPEED_MULTIPLIER) as i64,
                },
            ),
            ..p
        }
    }
}

/// Paddle `i` takes input `i`; paddles without an input keep their velocity.
pub open spec fn spec_paddle_input(ps: Seq<Paddle>, inputs: Seq<Seq<Direction>>) -> Seq<Paddle> {
    Seq::new(ps.len(), |i: int| if i < inputs.len() { spec_input(ps[i], inputs[i]) } else { ps[i] })
}

/// Sets each paddle's velocity from the directions pressed for it.
pub fn paddle_input(paddles: &mut Vec<Paddle>, inputs: &Vec<Vec<Direction>>)
    requires
        paddles_wf(old(paddles)@),
        inputs_bounded(inputs_view(inputs@)),
    ensures
        final(paddles)@ == spec_paddle_input(old(paddles)@, inputs_view(inputs@)),
        paddles_wf(final(paddles)@),
{
    let ghost old_ps = paddles@;
    let ghost ins = inputs_view(inputs@);
    let mut i: usize = 0;
    while i < paddles.len()
        invariant
            i <= paddles@.len() == old_ps.len(),
            ins == inputs_view(inputs@),
            inputs_bounded(ins),
            paddles_wf(old_ps),
            forall|j: int| 0 <= j < i ==> paddles@[j] == spec_paddle_input(old_ps, ins)[j],
            forall|j: int| i <= j < paddles@.len() ==> paddles@[j] == old_ps[j],
            paddles_wf(paddles@),
        decreases paddles@.len() - i,
    {
        if i < inputs.len() {
            assert(ins[i as int] == inputs@[i as int]@);
            match paddle_velocity(&inputs[i]) {
                Some(v) => {
                    let mut p = paddles[i];
                    p.velocity = v;
                    paddles.set(i, p);
                },
                None => {},
            }
        }
        i = i + 1;
    }
    assert(paddles@ =~= spec_paddle_input(old_ps, ins));
}

/// Each paddle after one tick of its friction.
pub open spec fn spec_friction(ps: Seq<Paddle>) -> Seq<Paddle> {
    ps.map_values(|p: Paddle| Paddle { velocity: p.velocity.spec_apply_friction(p.friction), ..p })
}

/// Slows every paddle by its friction.
pub fn apply_friction(paddles: &mut Vec<Paddle>)
    requires
        paddles_wf(old(paddles)@),
    ensures
        final(paddles)@ == spec_friction(old(paddles)@),
        paddles_wf(final(paddles)@),
{
    let ghost old_ps = paddles@;
    let mut i: usize = 0;
    while i < paddles.len()
        invariant
            i <= paddles@.len() == old_ps.len(),
            paddles_wf(old_ps),
            forall|j: int| 0 <= j < i ==> paddles@[j] == spec_friction(old_ps)[j],
            forall|j: int| i <= j < paddles@.len() ==> paddles@[j] == old_ps[j],
            paddles_wf(paddles@),
        decreases paddles@.len() - i,
    {
        let mut p = paddles[i];
        p.velocity.apply_friction(p.friction);
        paddles.set(i, p);
        i = i + 1;
    }
    assert(paddles@ =~= spec_friction(old_ps));
}

/// The ball after one tick of motion.
pub open spec fn spec_move_ball(b: Ball) -> Ball {
    Ball { transform: b.transform.spec_moved_by(b.velocity.spec_tick_displacement()), ..b }
}

/// Moves the ball by its velocity over one tick.
pub fn move_ball(ball: &mut Ball)
    requires
        old(ball).wf(),
    ensures
        *final(ball) == spec_move_ball(*old(ball)),
        final(ball).wf(),
{
    let d = ball.velocity.tick_displacement();
    ball.transform = ball.transform.moved_by(d);
}

/// A paddle after one tick of motion: it moves by its velocity unless a lane
/// of its side exists and would not wholly hold it at the new place, in which
/// case it stays where it is.
pub open spec fn spec_move_paddle(p: Paddle, lanes: Seq<BoundingBox>) -> Paddle {
    let moved = p.transform.spec_moved_by(p.velocity.spec_tick_displacement());
    let k = box_index(lanes, p.player.side);
    if k < lanes.len() && !contains(lanes[k].transform, moved) {
        p
    } else {
        Paddle { transform: moved, ..p }
    }
}

/// Each paddle after one tick of motion.
pub open spec fn spec_move_paddles(ps: Seq<Paddle>, lanes: Seq<BoundingBox>) -> Seq<Paddle> {
    ps.map_values(|p: Paddle| spec_move_paddle(p, lanes))
}

/// Moves each paddle by its velocity over one tick, keeping it in its lane.
pub fn move_paddles(paddles: &mut Vec<Paddle>, lanes: &Vec<BoundingBox>)
    requires
        paddles_wf(old(paddles)@),
        boxes_wf(lanes@),
    ensures
        final(paddles)@ == spec_move_paddles(old(paddles)@, lanes@),
        paddles_wf(final(paddles)@),
{
    let ghost old_ps = paddles@;
    let mut i: usize = 0;
    while i < paddles.len()
        invariant
            i <= paddles@.len() == old_ps.len(),
            paddles_wf(old_ps),
            boxes_wf(lanes@),
            forall|j: int| 0 <= j < i ==> paddles@[j] == spec_move_paddles(old_ps, lanes@)[j],
            forall|j: int| i <= j < paddles@.len() ==> paddles@[j] == old_ps[j],
            paddles_wf(paddles@),
        decreases paddles@.len() - i,
    {
        let p = paddles[i];
        let d = p.velocity.tick_displacement();
        let moved = p.transform.moved_by(d);
        let k = find_box(lanes, p.player.side);
        let commit = if k < lanes.len() {
            is_completely_inside_bounds(&lanes[k].transform, &moved)
        } else {
            true
        };
        if commit {
            let mut q = p;
            q.transform = moved;
            paddles.set(i, q);
        }
        i = i + 1;
    }
    assert(paddles@ =~= spec_move_paddles(old_ps, lanes@));
}

/// The ball's velocity and the events after it was tested against each
/// collider in turn, each hit reflecting the velocity that the next test
/// starts from.
pub open spec fn resolve_all(ball: Transform, vel: Velocity, cs: Seq<Collider>) -> (Velocity, Seq<
    collider::Event,
>)
    decreases cs.len(),
{
    if cs.len() == 0 {
        (vel, Seq::empty())
    } else {
        let (v, evs) = resolve_all(ball, vel, cs.drop_last());
        let c = cs.last();
        match spec_collide(ball, c.transform) {
            None => (v, evs),
            Some(kind) => (
                spec_reflect(kind, v),
                evs.push(collider::Event::spec_new(kind, c.spec_velocity_or_zero(), v)),
            ),
        }
    }
}

/// Tests the ball against each collider in order. Each hit sends an event
/// whose intensity is the relative speed of the two bodies before the hit,
/// and then reflects the ball off the side hit. The ball does not move.
pub fn collide_ball(ball: &mut Ball, colliders: &Vec<Collider>) -> (r: Vec<collider::Event>)
    requires
        old(ball).wf(),
        colliders_wf(colliders@),
    ensures
        final(ball).transform == old(ball).transform,
        (final(ball).velocity, r@) == resolve_all(
            old(ball).transform,
            old(ball).velocity,
            colliders@,
        ),
        final(ball).wf(),
{
    let ghost b0 = *ball;
    let mut events: Vec<collider::Event> = Vec::new();
    let mut i: usize = 0;
    while i < colliders.len()
        invariant
            i <= colliders@.len(),
            colliders_wf(colliders@),
            ball.transform == b0.transform,
            ball.wf(),
            (ball.velocity, events@) == resolve_all(
                b0.transform,
                b0.velocity,
                colliders@.subrange(0, i as int),
            ),
        decreases colliders@.len() - i,
    {
        let c = colliders[i];
        proof {
            let s = colliders@.subrange(0, i as int + 1);
            assert(s.drop_last() =~= colliders@.subrange(0, i as int));
            assert(s.last() == c);
        }
        match collide(ball.transform, c.transform) {
            Some(kind) => {
                let other = match c.velocity {
                    Some(v) => v,
                    None => Velocity::zero(),
                };
                let e = collider::Event::new(kind, other, ball.velocity);
                events.push(e);
                ball.velocity = reflect(kind, ball.velocity);
            },
            None => {},
        }
        i = i + 1;
    }
    proof {
        assert(colliders@.subrange(0, colliders@.len() as int) =~= colliders@);
    }
    events
}

/// The velocity of a body at `mover_new_pos` moving with `mover_vel` after
/// it meets the collider: reflected off the side of the collider it hit;
/// `None` when they do not meet.
pub fn check_collision(mover_new_pos: &Transform, mover_vel: Velocity, collider_tf: &Transform) -> (r:
    Option<Velocity>)
    requires
        mover_new_pos.wf(),
        mover_vel.wf(),
        collider_tf.wf(),
    ensures
        r == match spec_collide(*mover_new_pos, *collider_tf) {
            None => None,
            Some(kind) => Some(spec_reflect(kind, mover_vel)),
        },
{
    match collide(*mover_new_pos, *collider_tf) {
        Some(kind) => Some(reflect(kind, mover_vel)),
        None => None,
    }
}

/// The score events of one tick: one for each zone that the ball overlaps, in
/// zone order, each for the side opposite the zone's own.
pub open spec fn spec_score_events(ball: Transform, zones: Seq<BoundingBox>) -> Seq<score::Event>
    decreases zones.len(),
{
    if zones.len() == 0 {
        Seq::empty()
    } else {
        let evs = spec_score_events(ball, zones.drop_last());
        let z = zones.last();
        if overlaps(z.transform, ball) {
            evs.push(score::Event { player_side: z.side.spec_opposite() })
        } else {
            evs
        }
    }
}

/// Tests the ball against each score zone. A ball in the zone of one side
/// scores for the other.
pub fn detect_score(ball: &Ball, zones: &Vec<BoundingBox>) -> (r: Vec<score::Event>)
    requires
        ball.wf(),
        boxes_wf(zones@),
    ensures
        r@ == spec_score_events(ball.transform, zones@),
{
    let mut events: Vec<score::Event> = Vec::new();
    let mut i: usize = 0;
    while i < zones.len()
        invariant
            i <= zones@.len(),
            boxes_wf(zones@),
            ball.wf(),
            events@ == spec_score_events(ball.transform, zones@.subrange(0, i as int)),
        decreases zones@.len() - i,
    {
        let z = zones[i];
        proof {
            let s = zones@.subrange(0, i as int + 1);
            assert(s.drop_last() =~= zones@.subrange(0, i as int));
            assert(s.last() == z);
        }
        if is_inside_bounds(&z.transform, &ball.transform) {
            events.push(score::Event::new(z.side.opposite()));
        }
        i = i + 1;
    }
    proof {
        assert(zones@.subrange(0, zones@.len() as int) =~= zones@);
    }
    events
}

/// The side that scores in a tick: that of the first event. Later events of
/// the same tick are dropped.
pub open spec fn spec_first_event(events: Seq<score::Event>) -> Option<Side> {
    if events.len() > 0 { Some(events[0].player_side) } else { None }
}

/// The ball back at the serving place.
pub open spec fn spec_reset_ball(b: Ball) -> Ball {
    Ball { transform: Transform { translation: spec_ball_start().translation, ..b.transform }, ..b }
}

/// Each paddle back at its starting position.
pub open spec fn spec_reset_paddles(ps: Seq<Paddle>) -> Seq<Paddle> {
    ps.map_values(
        |p: Paddle| Paddle { transform: Transform { translation: p.player.starting_pos, ..p.transform }, ..p },
    )
}

/// The scores after a point for `side`: the first score of that side grows
/// by one.
pub open spec fn spec_award(scores: Seq<Score>, side: Side) -> Seq<Score> {
    let k = score_index(scores, side);
    if k < scores.len() {
        scores.update(k, Score { value: (scores[k].value + 1) as u64, side: scores[k].side })
    } else {
        scores
    }
}

/// No score is at the largest value a score can hold.
pub open spec fn scores_below_max(scores: Seq<Score>) -> bool {
    forall|i: int| 0 <= i < scores.len() ==> (#[trigger] scores[i]).value < u64::MAX
}

/// Handles at most one score event per tick: the ball goes back to the
/// serving place, each paddle to its starting position, and the scoring
/// side's score grows by one. Returns the side that scored.
pub fn handle_score_event(
    events: &Vec<score::Event>,
    ball: &mut Ball,
    paddles: &mut Vec<Paddle>,
    scores: &mut Vec<Score>,
) -> (r: Option<Side>)
    requires
        old(ball).wf(),
        paddles_wf(old(paddles)@),
        scores_below_max(old(scores)@),
    ensures
        r == spec_first_event(events@),
        r is None ==> *final(ball) == *old(ball),
        r is None ==> final(paddles)@ == old(paddles)@,
        r is None ==> final(scores)@ == old(scores)@,
        r matches Some(side) ==> *final(ball) == spec_reset_ball(*old(ball)),
        r matches Some(side) ==> final(paddles)@ == spec_reset_paddles(old(paddles)@),
        r matches Some(side) ==> final(scores)@ == spec_award(old(scores)@, side),
        final(ball).wf(),
        paddles_wf(final(paddles)@),
{
    if events.len() == 0 {
        return None;
    }
    let side = events[0].player_side;
    ball.transform.translation = Vec2 { x: BALL_START_X, y: BALL_START_Y };
    let ghost old_ps = paddles@;
    let mut i: usize = 0;
    while i < paddles.len()
        invariant
            i <= paddles@.len() == old_ps.len(),
            paddles_wf(old_ps),
            forall|j: int| 0 <= j < i ==> paddles@[j] == spec_reset_paddles(old_ps)[j],
            forall|j: int| i <= j < paddles@.len() ==> paddles@[j] == old_ps[j],
            paddles_wf(paddles@),
        decreases paddles@.len() - i,
    {
        let mut p = paddles[i];
        p.transform.translation = p.player.starting_pos;
        paddles.set(i, p);
        i = i + 1;
    }
    assert(paddles@ =~= spec_reset_paddles(old_ps));
    let k = find_score(scores, side);
    if k < scores.len() {
        let mut s = scores[k];
        s.increment();
        scores.set(k, s);
    }
    Some(side)
}

/// At most one score has reached `win_score`.
pub open spec fn at_most_one_winner(scores: Seq<Score>, win_score: u64) -> bool {
    forall|i: int, j: int|
        0 <= i < scores.len() && 0 <= j < scores.len() && #[trigger] scores[i].value >= win_score
            && #[trigger] scores[j].value >= win_score ==> i == j
}

/// The side whose score reached `win_score`, if any.
pub open spec fn spec_winner(scores: Seq<Score>, win_score: u64) -> Option<Side> {
    let k = winner_index(scores, win_score);
    if k < scores.len() { Some(scores[k].side) } else { None }
}

/// Checks whether a player has won: returns the side of the one score that
/// reached `win_score`, or `None` while every score is below it. Two winners
/// at once cannot arise when scores grow one point per tick.
pub fn detect_win_condition(scores: &Vec<Score>, win_score: u64) -> (r: Option<Side>)
    requires
        at_most_one_winner(scores@, win_score),
    ensures
        r == spec_winner(scores@, win_score),
        r is None <==> forall|i: int| 0 <= i < scores@.len() ==> (#[trigger] scores@[i]).value
            < win_score,
        forall|i: int|
            0 <= i < scores@.len() && (#[trigger] scores@[i]).value >= win_score ==> r == Some(
                scores@[i].side,
            ),
{
    let mut i: usize = 0;
    while i < scores.len()
        invariant
            i <= scores@.len(),
            forall|j: int| 0 <= j < i ==> (#[trigger] scores@[j]).value < win_score,
        ensures
            i <= scores@.len(),
            forall|j: int| 0 <= j < i ==> (#[trigger] scores@[j]).value < win_score,
            i < scores@.len() ==> scores@[i as int].value >= win_score,
        decreases scores@.len() - i,
    {
        if scores[i].value >= win_score {
            break;
        }
        i = i + 1;
    }
    proof {
        lemma_first_index_at(scores@, |s: Score| s.value >= win_score, i as int);
    }
    if i < scores.len() {
        Some(scores[i].side)
    } else {
        None
    }
}

/// Win threshold: while every score is below the winning score no side has
/// won; a point that lifts the scoring side's score to the winning score,
/// the other scores staying below it, leaves exactly one winner: that side.
pub proof fn lemma_win_threshold(scores: Seq<Score>, win_score: u64, side: Side)
    requires
        forall|i: int| 0 <= i < scores.len() ==> (#[trigger] scores[i]).value < win_score,
        0 <= score_index(scores, side) < scores.len(),
        scores[score_index(scores, side)].value + 1 == win_score,
    ensures
        spec_winner(scores, win_score) is None,
        at_most_one_winner(spec_award(scores, side), win_score),
        spec_winner(spec_award(scores, side), win_score) == Some(side),
{
    let k = score_index(scores, side);
    lemma_first_index(scores, |s: Score| s.side == side);
    lemma_first_index_at(scores, |s: Score| s.value >= win_score, scores.len() as int);
    let awarded = spec_award(scores, side);
    assert forall|j: int| 0 <= j < k implies (#[trigger] awarded[j]).value < win_score by {
        assert(awarded[j] == scores[j]);
        assert(scores[j].value < win_score);
    }
    lemma_first_index_at(awarded, |s: Score| s.value >= win_score, k);
}

/// A paddle after `n` ticks of motion.
pub open spec fn spec_paddle_after(p: Paddle, lanes: Seq<BoundingBox>, n: nat) -> Paddle
    decreases n,
{
    if n == 0 {
        p
    } else {
        spec_move_paddle(spec_paddle_after(p, lanes, (n - 1) as nat), lanes)
    }
}

/// Lane clamping: a paddle that starts wholly inside the lane of its side
/// stays wholly inside it, whatever its velocity and however many ticks pass;
/// a move that would take it out is not made.
pub proof fn lemma_lane_clamping(p: Paddle, lanes: Seq<BoundingBox>, n: nat)
    requires
        box_index(lanes, p.player.side) < lanes.len(),
        contains(lanes[box_index(lanes, p.player.side)].transform, p.transform),
    ensures
        contains(
            lanes[box_index(lanes, p.player.side)].transform,
            spec_paddle_after(p, lanes, n).transform,
        ),
        spec_paddle_after(p, lanes, n).player == p.player,
        spec_paddle_after(p, lanes, n).velocity == p.velocity,
    decreases n,
{
    if n > 0 {
        lemma_lane_clamping(p, lanes, (n - 1) as nat);
    }
}

proof fn lemma_no_score_events(ball: Transform, zones: Seq<BoundingBox>)
    requires
        forall|j: int| 0 <= j < zones.len() ==> !overlaps(#[trigger] zones[j].transform, ball),
    ensures
        spec_score_events(ball, zones).len() == 0,
    decreases zones.len(),
{
    if zones.len() > 0 {
        let pre = zones.drop_last();
        assert forall|j: int| 0 <= j < pre.len() implies !overlaps(#[trigger] pre[j].transform, ball) by {
            assert(pre[j] == zones[j]);
        }
        lemma_no_score_events(ball, pre);
    }
}

/// A ball in a score zone scores for the other side: when `zones[k]` is the
/// first zone that the ball overlaps, the point of the tick goes to the side
/// opposite that zone's.
pub proof fn lemma_first_score_event(ball: Transform, zones: Seq<BoundingBox>, k: int)
    requires
        0 <= k < zones.len(),
        overlaps(zones[k].transform, ball),
        forall|j: int| 0 <= j < k ==> !overlaps(#[trigger] zones[j].transform, ball),
    ensures
        spec_first_event(spec_score_events(ball, zones)) == Some(zones[k].side.spec_opposite()),
    decreases zones.len(),
{
    let pre = zones.drop_last();
    if k < zones.len() - 1 {
        assert forall|j: int| 0 <= j < k implies !overlaps(#[trigger] pre[j].transform, ball) by {
            assert(pre[j] == zones[j]);
        }
        assert(pre[k] == zones[k]);
        lemma_first_score_event(ball, pre, k);
    } else {
        assert forall|j: int| 0 <= j < pre.len() implies !overlaps(#[trigger] pre[j].transform, ball) by {
            assert(pre[j] == zones[j]);
        }
        lemma_no_score_events(ball, pre);
    }
}

} // verus!
