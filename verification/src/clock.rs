//! The session countdown: from the seconds elapsed since the session began,
//! the remaining time and whether the countdown has ended.

use vstd::prelude::*;

verus! {

/// One observation of the countdown.
#[derive(Clone, Copy, Debug, PartialEq, Eq, Structural)]
pub struct ClockTick {
    pub remaining: u64,
    pub expired: bool,
}

/// Seconds left after `elapsed` of `duration` seconds have passed.
pub open spec fn spec_remaining(duration: u64, elapsed: u64) -> int {
    if elapsed >= duration {
        0
    } else {
        duration - elapsed
    }
}

/// One clock cycle: the remaining time to publish, and whether the countdown
/// is over, by running out or because a stop was requested.
pub fn clock_step(duration: u64, elapsed: u64, stop_requested: bool) -> (r: ClockTick)
    ensures
        r.remaining == spec_remaining(duration, elapsed),
        r.expired == (stop_requested || elapsed >= duration),
        elapsed >= duration ==> r.remaining == 0 && r.expired,
{
    if elapsed >= duration {
        ClockTick { remaining: 0, expired: true }
    } else {
        ClockTick { remaining: duration - elapsed, expired: stop_requested }
    }
}

/// The remaining time never increases as elapsed time grows, and it reaches
/// zero as soon as the whole duration has elapsed.
pub proof fn lemma_remaining_monotone(duration: u64, e1: u64, e2: u64)
    requires
        e1 <= e2,
    ensures
        spec_remaining(duration, e2) <= spec_remaining(duration, e1),
        spec_remaining(duration, e1) <= duration,
        e2 >= duration ==> spec_remaining(duration, e2) == 0,
{
}

} // verus!
