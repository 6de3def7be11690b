//! Frame timing.
//!
//! The caller reads its clock once per frame and hands the reading over, in
//! nanoseconds since a start of its choosing. The clock keeps the last reading
//! and the time that passed between the last two.

use vstd::prelude::*;

verus! {

/// The time between frames that a clock reports before it has seen two
/// readings: one millisecond.
pub const FIRST_DELTA: u64 = 1_000_000;

/// The last reading and the time between the last two readings.
#[derive(Clone, Copy, Debug, PartialEq, Eq, Structural)]
pub struct Clock {
    pub previous: u64,
    pub delta: u64,
}

/// The time that passed from `earlier` to `later`; none if `later` lies before
/// `earlier`.
pub open spec fn time_between(earlier: u64, later: u64) -> u64 {
    if later >= earlier {
        (later - earlier) as u64
    } else {
        0
    }
}

impl Clock {
    /// A clock whose first reading is `now`.
    pub fn new(now: u64) -> (clock: Clock)
        ensures
            clock == (Clock { previous: now, delta: FIRST_DELTA }),
    {
        Clock { previous: now, delta: FIRST_DELTA }
    }
}

/// Takes the reading of a new frame: the time between frames becomes the time
/// since the last reading.
pub fn update(clock: &mut Clock, now: u64)
    ensures
        *final(clock) == (Clock {
            previous: now,
            delta: time_between(old(clock).previous, now),
        }),
{
    let previous: u64 = clock.previous;
    clock.previous = now;
    clock.delta = if now >= previous {
        now - previous
    } else {
        0
    };
}

/// The time between the last two frames.
pub fn get_delta(clock: &Clock) -> (delta: u64)
    ensures
        delta == clock.delta,
{
    clock.delta
}

} // verus!
