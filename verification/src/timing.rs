//! Fixed periods on a monotonic clock that counts nanoseconds, and the
//! two-phase wait both loops use: a coarse sleep that stops short of the
//! deadline, then a spin.

use vstd::prelude::*;

verus! {

/// The simulation's fixed timestep: 10 ms.
pub const TICK_NANOS: u64 = 10_000_000;

/// The least time between two rendered frames: 10 ms.
pub const FRAME_NANOS: u64 = 10_000_000;

/// A wait no longer than this is spun, not slept: 1.5 ms.
pub const GUARD_NANOS: u64 = 1_500_000;

/// The time between two reports of the frame rate: 2 s.
pub const REPORT_NANOS: u64 = 2_000_000_000;

pub const NANOS_PER_MILLI: u64 = 1_000_000;

/// How a loop passes the time until its next deadline.
#[derive(Clone, Copy, Debug, PartialEq, Eq, Structural)]
pub enum Wait {
    /// Sleep for this many milliseconds, then look again.
    Sleep { millis: u64 },
    /// Look again at once.
    Spin,
}

/// Whether a full `period` has passed at `now` since `last`.
pub open spec fn spec_due(last: u64, period: u64, now: u64) -> bool {
    now >= last + period
}

/// The time left at `now` until `period` after `last`; zero once that
/// moment has come.
pub open spec fn spec_remaining(last: u64, period: u64, now: u64) -> int {
    if last + period > now {
        last + period - now
    } else {
        0
    }
}

/// The wait for a deadline `remaining` nanoseconds away: above the guard
/// interval a sleep of the whole milliseconds that remain less one, else a
/// spin.
pub open spec fn spec_wait(remaining: int) -> Wait {
    if remaining > GUARD_NANOS {
        Wait::Sleep { millis: (remaining / (NANOS_PER_MILLI as int) - 1) as u64 }
    } else {
        Wait::Spin
    }
}

pub fn due(last: u64, period: u64, now: u64) -> (d: bool)
    ensures
        d == spec_due(last, period, now),
{
    now >= last && now - last >= period
}

/// The wait at `now` for the deadline `period` after `last`.
pub fn wait_until(last: u64, period: u64, now: u64) -> (w: Wait)
    ensures
        w == spec_wait(spec_remaining(last, period, now)),
{
    let deadline: u128 = last as u128 + period as u128;
    if deadline > now as u128 {
        let remaining: u128 = deadline - now as u128;
        if remaining > GUARD_NANOS as u128 {
            let millis: u128 = remaining / (NANOS_PER_MILLI as u128) - 1;
            Wait::Sleep { millis: millis as u64 }
        } else {
            Wait::Spin
        }
    } else {
        Wait::Spin
    }
}

/// A sleep never reaches the deadline: when it ends, at least one and less
/// than two milliseconds remain to be spun.
pub proof fn law_sleep_stops_short(last: u64, period: u64, now: u64)
    requires
        spec_remaining(last, period, now) > GUARD_NANOS,
    ensures
        spec_wait(spec_remaining(last, period, now)) is Sleep,
        ({
            let remaining = spec_remaining(last, period, now);
            let slept = spec_wait(remaining)->millis * NANOS_PER_MILLI;
            NANOS_PER_MILLI <= remaining - slept < 2 * NANOS_PER_MILLI
        }),
{
}

/// At or below the guard interval nothing is slept.
pub proof fn law_short_wait_spins(remaining: int)
    requires
        remaining <= GUARD_NANOS,
    ensures
        spec_wait(remaining) == Wait::Spin,
{
}

} // verus!
