//! How the objects of a scene turn: by time, or by their place in the scene.
//!
//! Every third object, from the first, spins at a steady rate. Each other
//! object is tilted by an angle that depends on its index alone and stays as
//! it is. Angles are whole thousandths of a degree and times whole
//! milliseconds, so that both are exact.

use vstd::prelude::*;

verus! {

/// Of this many objects in a row, the first spins.
pub const SPIN_EVERY: u32 = 3;

/// The rate of a spinning object, in degrees per second.
pub const SPIN_RATE: u32 = 30;

/// The tilt of a fixed object, in degrees for each step of its index.
pub const TILT_STEP: u32 = 20;

/// The thousandths of a degree in one degree, and the milliseconds in one
/// second.
pub const THOUSAND: u64 = 1000;

/// The rule by which one object turns about the scene's axis.
#[derive(Clone, Copy, Debug, PartialEq, Eq, Structural)]
pub enum Rotation {
    /// The angle grows with time, from 0 at time 0.
    Spinning { degrees_per_second: u32 },
    /// The angle is the same at all times.
    Fixed { degrees: u64 },
}

/// The rule for the object at `index`.
pub open spec fn rotation_of(index: u32) -> Rotation {
    if index % SPIN_EVERY == 0 {
        Rotation::Spinning { degrees_per_second: SPIN_RATE }
    } else {
        Rotation::Fixed { degrees: (TILT_STEP * index) as u64 }
    }
}

/// The angle of a rotation, in thousandths of a degree, when `elapsed`
/// milliseconds have passed.
pub open spec fn angle_at(rotation: Rotation, elapsed: int) -> int {
    match rotation {
        Rotation::Spinning { degrees_per_second } => degrees_per_second * elapsed,
        Rotation::Fixed { degrees } => degrees * THOUSAND,
    }
}

/// The rule for the object at `index`.
pub fn rotation(index: u32) -> (rule: Rotation)
    ensures
        rule == rotation_of(index),
{
    if index % SPIN_EVERY == 0 {
        Rotation::Spinning { degrees_per_second: SPIN_RATE }
    } else {
        Rotation::Fixed { degrees: TILT_STEP as u64 * index as u64 }
    }
}

impl Rotation {
    /// The angle in thousandths of a degree when `elapsed` milliseconds have
    /// passed, or `None` where it is more than 64 bits can hold.
    pub fn angle(&self, elapsed: u64) -> (angle: Option<u64>)
        ensures
            match angle {
                Some(thousandths) => thousandths == angle_at(*self, elapsed as int),
                None => angle_at(*self, elapsed as int) > u64::MAX,
            },
    {
        match *self {
            Rotation::Spinning { degrees_per_second } => (degrees_per_second as u64).checked_mul(
                elapsed,
            ),
            Rotation::Fixed { degrees } => degrees.checked_mul(THOUSAND),
        }
    }
}

/// An object whose index is no multiple of [`SPIN_EVERY`] has the same
/// angle at all times: [`TILT_STEP`] degrees for each step of its index.
pub proof fn law_fixed_angle_is_constant(index: u32, earlier: int, later: int)
    requires
        index % SPIN_EVERY != 0,
    ensures
        angle_at(rotation_of(index), earlier) == angle_at(rotation_of(index), later),
        angle_at(rotation_of(index), earlier) == TILT_STEP * index * THOUSAND,
{
}

/// An object whose index is a multiple of [`SPIN_EVERY`] has, at every
/// time, the angle of [`SPIN_RATE`] degrees per second times that time: it
/// starts at 0 and changes by as much as the time does, times the rate, so
/// that times that are close give angles that are close.
pub proof fn law_spinning_angle_follows_time(index: u32, earlier: int, later: int)
    requires
        index % SPIN_EVERY == 0,
    ensures
        angle_at(rotation_of(index), 0) == 0,
        angle_at(rotation_of(index), later) == SPIN_RATE * later,
        angle_at(rotation_of(index), later) - angle_at(rotation_of(index), earlier) == SPIN_RATE
            * (later - earlier),
{
    assert(SPIN_RATE * later - SPIN_RATE * earlier == SPIN_RATE * (later - earlier))
        by (nonlinear_arith);
}

} // verus!
