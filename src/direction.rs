use vstd::prelude::*;

verus! {

/// Below this squared speed (in squared thousandths of a unit per second, that
/// is a speed of 0.1) an actor counts as standing still.
pub const MIN_SPEED_SQ: u64 = 10_000;

/// Vertical velocity (in thousandths) from which motion counts as "up".
/// The threshold sits above zero on purpose: nearly horizontal motion faces down.
pub const UP_THRESHOLD: i32 = 500;

/// A 2D velocity in thousandths of a world unit per second.
#[derive(Clone, Copy, Debug, PartialEq, Eq, Structural)]
pub struct Velocity {
    pub x: i32,
    pub y: i32,
}

/// The squared magnitude of a velocity, in squared thousandths.
pub open spec fn speed_sq(v: Velocity) -> int {
    v.x * v.x + v.y * v.y
}

impl Velocity {
    pub fn new(x: i32, y: i32) -> (r: Velocity)
        ensures
            r == (Velocity { x, y }),
    {
        Velocity { x, y }
    }

    /// The squared magnitude, computed without overflow.
    pub fn length_squared(&self) -> (r: u64)
        ensures
            r == speed_sq(*self),
    {
        let x = self.x as i64;
        let y = self.y as i64;
        assert(0 <= x * x <= 0x4000_0000_0000_0000) by (nonlinear_arith)
            requires
                -0x8000_0000 <= x <= 0x7fff_ffff,
        ;
        assert(0 <= y * y <= 0x4000_0000_0000_0000) by (nonlinear_arith)
            requires
                -0x8000_0000 <= y <= 0x7fff_ffff,
        ;
        (x * x) as u64 + (y * y) as u64
    }
}

/// The way an actor faces; each has its own row of frames.
#[derive(Clone, Copy, Debug, PartialEq, Eq, Hash, Structural)]
pub enum Direction {
    UpLeft,
    UpRight,
    DownLeft,
    DownRight,
}

impl Default for Direction {
    fn default() -> (r: Direction)
        ensures
            r == Direction::DownRight,
    {
        Direction::DownRight
    }
}

/// The facing that a velocity points to. A velocity too slow to count as
/// motion has no facing of its own and gives the fallback `DownRight`.
pub open spec fn classify(v: Velocity) -> Direction {
    if speed_sq(v) < MIN_SPEED_SQ {
        Direction::DownRight
    } else if v.x >= 0 {
        if v.y >= UP_THRESHOLD {
            Direction::UpRight
        } else {
            Direction::DownRight
        }
    } else {
        if v.y >= UP_THRESHOLD {
            Direction::UpLeft
        } else {
            Direction::DownLeft
        }
    }
}

/// The facing an actor keeps after a tick at velocity `v`: it turns only when
/// it moves faster than the standing-still threshold.
pub open spec fn next_direction(d: Direction, v: Velocity) -> Direction {
    if speed_sq(v) > MIN_SPEED_SQ && classify(v) != d {
        classify(v)
    } else {
        d
    }
}

impl Direction {
    /// Classifies a velocity by the sign of `x` and the biased threshold on `y`.
    pub fn from_velocity(velocity: Velocity) -> (r: Direction)
        ensures
            r == classify(velocity),
    {
        if velocity.length_squared() < MIN_SPEED_SQ {
            return Direction::DownRight;
        }
        match (velocity.x >= 0, velocity.y >= UP_THRESHOLD) {
            (true, true) => Direction::UpRight,
            (false, true) => Direction::UpLeft,
            (true, false) => Direction::DownRight,
            (false, false) => Direction::DownLeft,
        }
    }
}

/// Turns `direction` toward the velocity, unless the actor is too slow for its
/// facing to be trusted.
pub fn update_direction_from_velocity(direction: &mut Direction, velocity: Velocity)
    ensures
        *final(direction) == next_direction(*old(direction), velocity),
{
    let new_direction = Direction::from_velocity(velocity);
    if new_direction != *direction && velocity.length_squared() > MIN_SPEED_SQ {
        *direction = new_direction;
    }
}

/// A velocity slower than the standing-still threshold never changes the
/// stored facing.
pub proof fn lemma_slow_velocity_keeps_direction(d: Direction, v: Velocity)
    requires
        speed_sq(v) < MIN_SPEED_SQ,
    ensures
        next_direction(d, v) == d,
{
}

/// With `x >= 0`, a vertical velocity below the up threshold faces
/// down-right (however slow, since a standing actor also falls back to
/// down-right), and one from the threshold on faces up-right.
pub proof fn lemma_up_threshold_bias(v: Velocity)
    requires
        v.x >= 0,
    ensures
        v.y < UP_THRESHOLD ==> classify(v) == Direction::DownRight,
        v.y >= UP_THRESHOLD ==> classify(v) == Direction::UpRight,
{
    if v.y >= UP_THRESHOLD {
        assert(v.x * v.x + v.y * v.y >= 250_000) by (nonlinear_arith)
            requires
                v.y >= 500,
        ;
    }
}

} // verus!
