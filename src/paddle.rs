//! Sides of the field, players and their paddles, and how input steers a
//! paddle.
use vstd::prelude::*;
use crate::constants::{
    MAX_COORD, MAX_PRESSED_DIRECTIONS, PADDLE_DEFAULT_FRICTION, PADDLE_HEIGHT,
    PADDLE_SPEED_MULTIPLIER, PADDLE_WIDTH,
};
use crate::geometry::{Transform, Vec2};
use crate::velocity::{friction_wf, Friction, Velocity};

verus! {

/// A side of the screen. Used mainly for telling who scored.
#[derive(Clone, Copy, Debug, PartialEq, Eq, Structural)]
pub enum Side {
    Left,
    Right,
}

impl Side {
    pub open spec fn spec_opposite(self) -> Side {
        match self {
            Side::Left => Side::Right,
            Side::Right => Side::Left,
        }
    }

    /// The opposite side of the screen.
    pub fn opposite(&self) -> (r: Side)
        ensures
            r == self.spec_opposite(),
            r != *self,
    {
        match self {
            Side::Left => Side::Right,
            Side::Right => Side::Left,
        }
    }
}

impl Default for Side {
    /// The left side.
    fn default() -> (r: Side)
        ensures
            r == Side::Left,
    {
        Side::Left
    }
}

/// Taking the opposite side twice gives back the side.
pub proof fn lemma_opposite_involution(s: Side)
    ensures
        s.spec_opposite().spec_opposite() == s,
{
}

/// A player's side and the position their paddle returns to after a point.
#[derive(Clone, Copy, Debug, PartialEq, Eq, Structural)]
pub struct Player {
    pub side: Side,
    pub starting_pos: Vec2,
}

impl Player {
    pub fn new(side: Side, starting_pos: Vec2) -> (r: Player)
        ensures
            r.side == side,
            r.starting_pos == starting_pos,
    {
        Player { side, starting_pos }
    }
}

impl Default for Player {
    /// The left player, starting at the origin.
    fn default() -> (r: Player)
        ensures
            r.side == Side::Left,
            r.starting_pos == (Vec2 { x: 0, y: 0 }),
    {
        Player { side: Side::Left, starting_pos: Vec2 { x: 0, y: 0 } }
    }
}

/// A player's paddle.
#[derive(Clone, Copy, Debug, PartialEq, Eq, Structural)]
pub struct Paddle {
    pub transform: Transform,
    pub velocity: Velocity,
    pub friction: Friction,
    pub player: Player,
}

impl Paddle {
    pub open spec fn wf(self) -> bool {
        &&& self.transform.wf()
        &&& self.velocity.wf()
        &&& friction_wf(self.friction)
        &&& self.player.starting_pos.is_position()
    }

    /// A paddle for `side`: at rest at the origin, of the default size and
    /// friction, with the origin as its starting position.
    pub open spec fn spec_new(side: Side) -> Paddle {
        Paddle {
            transform: Transform {
                translation: Vec2 { x: 0, y: 0 },
                scale: Vec2 { x: PADDLE_WIDTH, y: PADDLE_HEIGHT },
            },
            velocity: Velocity(Vec2 { x: 0, y: 0 }),
            friction: Friction(PADDLE_DEFAULT_FRICTION),
            player: Player { side, starting_pos: Vec2 { x: 0, y: 0 } },
        }
    }

    pub fn new(side: Side) -> (r: Paddle)
        ensures
            r == Paddle::spec_new(side),
            r.wf(),
    {
        Paddle {
            transform: Transform {
                translation: Vec2 { x: 0, y: 0 },
                scale: Vec2 { x: PADDLE_WIDTH, y: PADDLE_HEIGHT },
            },
            velocity: Velocity(Vec2 { x: 0, y: 0 }),
            friction: Friction(PADDLE_DEFAULT_FRICTION),
            player: Player { side, starting_pos: Vec2 { x: 0, y: 0 } },
        }
    }

    /// A paddle for the left player.
    pub fn left_player() -> (r: Paddle)
        ensures
            r == Paddle::spec_new(Side::Left),
    {
        Paddle::new(Side::Left)
    }

    /// A paddle for the right player.
    pub fn right_player() -> (r: Paddle)
        ensures
            r == Paddle::spec_new(Side::Right),
    {
        Paddle::new(Side::Right)
    }

    /// Places the paddle at `pos`, which also becomes its starting position.
    pub fn with_position(self, pos: Vec2) -> (r: Paddle)
        requires
            self.wf(),
            pos.is_position(),
        ensures
            r == (Paddle {
                transform: Transform { translation: pos, ..self.transform },
                player: Player { starting_pos: pos, ..self.player },
                ..self
            }),
            r.wf(),
    {
        let mut r = self;
        r.transform.translation = pos;
        r.player.starting_pos = pos;
        r
    }

    /// Gives the paddle a width and a height.
    pub fn with_dimensions(self, width: i64, height: i64) -> (r: Paddle)
        requires
            self.wf(),
            0 < width <= MAX_COORD,
            0 < height <= MAX_COORD,
        ensures
            r == (Paddle {
                transform: Transform { scale: Vec2 { x: width, y: height }, ..self.transform },
                ..self
            }),
            r.wf(),
    {
        let mut r = self;
        r.transform.scale = Vec2 { x: width, y: height };
        r
    }

    /// Sets the paddle's velocity.
    pub fn with_velocity(self, velocity: Velocity) -> (r: Paddle)
        requires
            self.wf(),
            velocity.wf(),
        ensures
            r == (Paddle { velocity, ..self }),
            r.wf(),
    {
        let mut r = self;
        r.velocity = velocity;
        r
    }
}

impl Default for Paddle {
    /// A paddle for the left player at the origin.
    fn default() -> (r: Paddle)
        ensures
            r == Paddle::spec_new(Side::Left),
    {
        Paddle::new(Side::Left)
    }
}

/// A direction that a control can push a paddle in.
#[derive(Clone, Copy, Debug, PartialEq, Eq, Structural)]
pub enum Direction {
    Up,
    Down,
    Left,
    Right,
}

impl Direction {
    pub open spec fn spec_unit_vector(self) -> Vec2 {
        match self {
            Direction::Up => Vec2 { x: 0, y: 1 },
            Direction::Down => Vec2 { x: 0, y: -1i64 },
            Direction::Left => Vec2 { x: -1i64, y: 0 },
            Direction::Right => Vec2 { x: 1, y: 0 },
        }
    }

    /// The unit vector pointing in this direction.
    pub fn unit_vector(&self) -> (r: Vec2)
        ensures
            r == self.spec_unit_vector(),
    {
        match self {
            Direction::Up => Vec2 { x: 0, y: 1 },
            Direction::Down => Vec2 { x: 0, y: -1 },
            Direction::Left => Vec2 { x: -1, y: 0 },
            Direction::Right => Vec2 { x: 1, y: 0 },
        }
    }
}

/// The horizontal component of the sum of the directions' unit vectors.
pub open spec fn sum_x(dirs: Seq<Direction>) -> int
    decreases dirs.len(),
{
    if dirs.len() == 0 {
        0
    } else {
        sum_x(dirs.drop_last()) + dirs.last().spec_unit_vector().x
    }
}

/// The vertical component of the sum of the directions' unit vectors.
pub open spec fn sum_y(dirs: Seq<Direction>) -> int
    decreases dirs.len(),
{
    if dirs.len() == 0 {
        0
    } else {
        sum_y(dirs.drop_last()) + dirs.last().spec_unit_vector().y
    }
}

/// The velocity that a paddle takes from the directions pressed for it in one
/// tick: the sum of their unit vectors, so that two directions give a
/// diagonal, times the paddle speed. `None` when nothing is pressed, which
/// leaves the paddle's velocity as it is.
pub fn paddle_velocity(pressed: &Vec<Direction>) -> (r: Option<Velocity>)
    requires
        pressed@.len() <= MAX_PRESSED_DIRECTIONS,
    ensures
        r is None <==> pressed@.len() == 0,
        r matches Some(v) ==> v.0.x == sum_x(pressed@) * PADDLE_SPEED_MULTIPLIER && v.0.y
            == sum_y(pressed@) * PADDLE_SPEED_MULTIPLIER && v.wf(),
{
    if pressed.len() == 0 {
        return None;
    }
    let mut x: i64 = 0;
    let mut y: i64 = 0;
    let mut i: usize = 0;
    while i < pressed.len()
        invariant
            i <= pressed@.len() <= MAX_PRESSED_DIRECTIONS,
            x == sum_x(pressed@.subrange(0, i as int)),
            y == sum_y(pressed@.subrange(0, i as int)),
            -(i as int) <= x <= i,
            -(i as int) <= y <= i,
        decreases pressed@.len() - i,
    {
        let u = pressed[i].unit_vector();
        proof {
            let s = pressed@.subrange(0, i as int + 1);
            assert(s.drop_last() =~= pressed@.subrange(0, i as int));
        }
        x = x + u.x;
        y = y + u.y;
        i = i + 1;
    }
    proof {
        assert(pressed@.subrange(0, pressed@.len() as int) =~= pressed@);
    }
    Some(Velocity(Vec2 { x: x * PADDLE_SPEED_MULTIPLIER, y: y * PADDLE_SPEED_MULTIPLIER }))
}

} // verus!
