//! Shaking: a decaying random offset applied to marked transforms, started
//! by collisions.
use vstd::prelude::*;
use crate::collider;
use crate::constants::{
    DEFAULT_SHAKE_DURATION_MS, DEFAULT_SHAKE_INTENSITY, MAX_COORD, MIN_COLLISION_SHAKE_MS,
    UNITS_PER_WORLD_UNIT,
};
use crate::geometry::clamp;

verus! {

/// How many dimensions a shake moves.
#[derive(Clone, Copy, Debug, PartialEq, Eq, Structural)]
pub enum Dimensions {
    Two,
    Three,
}

/// Marks a transform that responds to shakes.
#[derive(Clone, Copy, Debug, PartialEq, Eq, Structural)]
pub struct Shaker(pub Dimensions);

impl Shaker {
    pub fn new_2d() -> (r: Shaker)
        ensures
            r.0 == Dimensions::Two,
    {
        Shaker(Dimensions::Two)
    }

    pub fn new_3d() -> (r: Shaker)
        ensures
            r.0 == Dimensions::Three,
    {
        Shaker(Dimensions::Three)
    }

    /// The offset this shaker takes from a shake's `(x, y, z)` offset: a
    /// two-dimensional shaker does not move in depth.
    pub fn offset(&self, offset: (i64, i64, i64)) -> (r: (i64, i64, i64))
        ensures
            r.0 == offset.0,
            r.1 == offset.1,
            r.2 == (if self.0 == Dimensions::Two { 0 } else { offset.2 }),
    {
        match self.0 {
            Dimensions::Two => (offset.0, offset.1, 0),
            Dimensions::Three => offset,
        }
    }
}

/// Sent to start a shake.
#[derive(Clone, Copy, Debug, PartialEq, Eq, Structural)]
pub struct Event {
    /// How hard the shake is.
    pub intensity: u64,
    /// How long the shake lasts, in milliseconds.
    pub duration_ms: u64,
}

/// The length of the shake that a collision of the given intensity starts:
/// the intensity divided by three, per world unit, times the default
/// duration, kept between the shortest collision shake and twice the default.
pub open spec fn spec_collision_shake_ms(intensity: u64) -> int {
    clamp(
        (intensity / 3) as int * DEFAULT_SHAKE_DURATION_MS / UNITS_PER_WORLD_UNIT as int,
        MIN_COLLISION_SHAKE_MS as int,
        2 * DEFAULT_SHAKE_DURATION_MS,
    )
}

impl Event {
    /// A shake for a collision: a third of its intensity, for a time that
    /// grows with the intensity.
    pub fn from_collision(e: collider::Event) -> (r: Event)
        ensures
            r.intensity == e.intensity / 3,
            r.duration_ms == spec_collision_shake_ms(e.intensity),
    {
        let intensity = e.intensity / 3;
        let scaled = (intensity as u128 * DEFAULT_SHAKE_DURATION_MS as u128
            / UNITS_PER_WORLD_UNIT as u128) as u64;
        let duration_ms = if scaled < MIN_COLLISION_SHAKE_MS {
            MIN_COLLISION_SHAKE_MS
        } else if scaled > 2 * DEFAULT_SHAKE_DURATION_MS {
            2 * DEFAULT_SHAKE_DURATION_MS
        } else {
            scaled
        };
        Event { intensity, duration_ms }
    }
}

impl Default for Event {
    fn default() -> (r: Event)
        ensures
            r.intensity == DEFAULT_SHAKE_INTENSITY,
            r.duration_ms == DEFAULT_SHAKE_DURATION_MS,
    {
        Event { intensity: DEFAULT_SHAKE_INTENSITY, duration_ms: DEFAULT_SHAKE_DURATION_MS }
    }
}

/// A shake in progress. Its timer runs once: it counts elapsed time up to
/// the duration and is finished from the tick that reaches it.
#[derive(Clone, Copy, Debug, PartialEq, Eq, Structural)]
pub struct Shake {
    pub intensity: u64,
    pub duration_ms: u64,
    pub elapsed_ms: u64,
    pub finished: bool,
}

/// One offset of a shake: the sample `s` as a fraction `s / 2^32` of the
/// intensity, faded by the share of the duration still to run.
pub open spec fn spec_shake_offset(s: u32, intensity: u64, duration_ms: u64, elapsed_ms: u64) -> int {
    if duration_ms == 0 {
        0
    } else {
        ((s as int * intensity) / 0x1_0000_0000) * (duration_ms - elapsed_ms) / duration_ms as int
    }
}

impl Shake {
    /// The intensity is within the coordinate range and the elapsed time
    /// does not pass the duration.
    pub open spec fn wf(self) -> bool {
        self.intensity <= MAX_COORD && self.elapsed_ms <= self.duration_ms
    }

    pub fn new(intensity: u64, duration_ms: u64) -> (r: Shake)
        ensures
            r == (Shake { intensity, duration_ms, elapsed_ms: 0, finished: false }),
    {
        Shake { intensity, duration_ms, elapsed_ms: 0, finished: false }
    }

    /// Restarts the timer with a new duration.
    pub fn with_duration(self, duration_ms: u64) -> (r: Shake)
        ensures
            r == (Shake { duration_ms, elapsed_ms: 0, finished: false, ..self }),
    {
        Shake { duration_ms, elapsed_ms: 0, finished: false, ..self }
    }

    /// Sets how hard the shake is.
    pub fn with_intensity(self, intensity: u64) -> (r: Shake)
        ensures
            r == (Shake { intensity, ..self }),
    {
        Shake { intensity, ..self }
    }

    /// A shake started by `e`.
    pub fn from_event(e: Event) -> (r: Shake)
        ensures
            r == (Shake {
                intensity: e.intensity,
                duration_ms: e.duration_ms,
                elapsed_ms: 0,
                finished: false,
            }),
    {
        Shake::default().with_intensity(e.intensity).with_duration(e.duration_ms)
    }

    /// Advances the timer by `delta_ms`. A finished timer stays as it is;
    /// otherwise the time is added, and once it reaches the duration the
    /// timer is finished and holds at the duration.
    pub fn tick(&mut self, delta_ms: u64)
        requires
            old(self).wf(),
        ensures
            final(self).wf(),
            final(self).intensity == old(self).intensity,
            final(self).duration_ms == old(self).duration_ms,
            old(self).finished ==> *final(self) == *old(self),
            !old(self).finished ==> final(self).finished == (old(self).elapsed_ms + delta_ms
                >= old(self).duration_ms),
            !old(self).finished ==> final(self).elapsed_ms == if old(self).elapsed_ms + delta_ms
                >= old(self).duration_ms {
                old(self).duration_ms as int
            } else {
                old(self).elapsed_ms + delta_ms
            },
    {
        if self.finished {
            return;
        }
        if delta_ms >= self.duration_ms - self.elapsed_ms {
            self.elapsed_ms = self.duration_ms;
            self.finished = true;
        } else {
            self.elapsed_ms = self.elapsed_ms + delta_ms;
        }
    }

    /// Whether the shake is over.
    pub fn done(&self) -> (r: bool)
        ensures
            r == self.finished,
    {
        self.finished
    }

    /// The offset of the shake from three samples drawn uniformly from the
    /// `u32` range: nothing once the shake is over, otherwise on each axis
    /// the sample's fraction of the intensity, fading out as time runs.
    pub fn calculate_from(&self, sx: u32, sy: u32, sz: u32) -> (r: (i64, i64, i64))
        requires
            self.wf(),
        ensures
            self.finished ==> r == (0i64, 0i64, 0i64),
            !self.finished ==> r.0 == spec_shake_offset(
                sx,
                self.intensity,
                self.duration_ms,
                self.elapsed_ms,
            ) && r.1 == spec_shake_offset(sy, self.intensity, self.duration_ms, self.elapsed_ms)
                && r.2 == spec_shake_offset(sz, self.intensity, self.duration_ms, self.elapsed_ms),
            0 <= r.0 <= self.intensity,
            0 <= r.1 <= self.intensity,
            0 <= r.2 <= self.intensity,
    {
        if self.finished {
            return (0, 0, 0);
        }
        (self.axis_offset(sx), self.axis_offset(sy), self.axis_offset(sz))
    }

    fn axis_offset(&self, s: u32) -> (r: i64)
        requires
            self.wf(),
        ensures
            r == spec_shake_offset(s, self.intensity, self.duration_ms, self.elapsed_ms),
            0 <= r <= self.intensity,
    {
        if self.duration_ms == 0 {
            return 0;
        }
        assert(s as u128 * self.intensity as u128 <= 0x1_0000_0000u128 * MAX_COORD) by (nonlinear_arith)
            requires
                s < 0x1_0000_0000int,
                self.intensity <= MAX_COORD,
        ;
        let a: u128 = (s as u128 * self.intensity as u128) / 0x1_0000_0000u128;
        assert(a <= self.intensity) by (nonlinear_arith)
            requires
                a == (s as int * self.intensity as int) / 0x1_0000_0000int,
                s < 0x1_0000_0000int,
        ;
        let remaining: u128 = (self.duration_ms - self.elapsed_ms) as u128;
        assert(a * remaining <= self.intensity * (self.duration_ms as u128)) by (nonlinear_arith)
            requires
                a <= self.intensity,
                remaining <= self.duration_ms,
        ;
        assert(self.intensity * (self.duration_ms as u128) <= MAX_COORD * 0x1_0000_0000_0000_0000u128) by (nonlinear_arith)
            requires
                self.intensity <= MAX_COORD,
                self.duration_ms < 0x1_0000_0000_0000_0000u128,
        ;
        let v = a * remaining / self.duration_ms as u128;
        assert(v <= self.intensity) by (nonlinear_arith)
            requires
                v == (a * remaining) / (self.duration_ms as int),
                a * remaining <= self.intensity * (self.duration_ms as u128),
                self.duration_ms > 0,
        ;
        v as i64
    }

    /// The offset of the shake for this frame, drawn at random.
    pub fn calculate(&self) -> (r: (i64, i64, i64))
        requires
            self.wf(),
        ensures
            self.finished ==> r == (0i64, 0i64, 0i64),
            !self.finished ==> exists|sx: u32, sy: u32, sz: u32|
                r == (
                    spec_shake_offset(sx, self.intensity, self.duration_ms, self.elapsed_ms) as i64,
                    spec_shake_offset(sy, self.intensity, self.duration_ms, self.elapsed_ms) as i64,
                    spec_shake_offset(sz, self.intensity, self.duration_ms, self.elapsed_ms) as i64,
                ),
            0 <= r.0 <= self.intensity,
            0 <= r.1 <= self.intensity,
            0 <= r.2 <= self.intensity,
    {
        let sx: u32 = rand::random::<u32>();
        let sy: u32 = rand::random::<u32>();
        let sz: u32 = rand::random::<u32>();
        self.calculate_from(sx, sy, sz)
    }
}

impl Default for Shake {
    /// A shake of the default intensity and duration.
    fn default() -> (r: Shake)
        ensures
            r == (Shake {
                intensity: DEFAULT_SHAKE_INTENSITY,
                duration_ms: DEFAULT_SHAKE_DURATION_MS,
                elapsed_ms: 0,
                finished: false,
            }),
    {
        Shake {
            intensity: DEFAULT_SHAKE_INTENSITY,
            duration_ms: DEFAULT_SHAKE_DURATION_MS,
            elapsed_ms: 0,
            finished: false,
        }
    }
}

} // verus!
