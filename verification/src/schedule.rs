//! When the tray refreshes, and how the window is placed at launch: the
//! decisions of the two background loops, each a step from what the loop
//! observed to what it does next.

use vstd::prelude::*;

verus! {

/// How often the refresh loop looks at the interval while it waits, in
/// milliseconds.
pub const REFRESH_POLL_MILLIS: u64 = 1000;

/// How long the launch placement waits between looks at the tray, in
/// milliseconds.
pub const PLACEMENT_POLL_MILLIS: u64 = 100;

/// How many times the launch placement looks at the tray again before it
/// shows the window anyway.
pub const PLACEMENT_MAX_POLLS: u32 = 60;

/// What the refresh loop does next.
pub enum RefreshStep {
    /// Refresh now.
    FetchNow,
    /// Sleep this many milliseconds, then look again.
    SleepMillis(u64),
}

/// The refresh loop's step while it waits: refresh when the wait is over, or
/// at once when the interval changed since the wait began (so a new interval
/// takes effect promptly); otherwise sleep until the deadline, at most
/// `REFRESH_POLL_MILLIS` at a time.
pub fn refresh_wait_step(remaining_millis: u64, waited_interval: u64, current_interval: u64) -> (step: RefreshStep)
    ensures
        remaining_millis == 0 || current_interval != waited_interval ==> step == RefreshStep::FetchNow,
        remaining_millis > 0 && current_interval == waited_interval ==> step == RefreshStep::SleepMillis(
            if remaining_millis < 1000 {
                remaining_millis
            } else {
                1000
            },
        ),
{
    if remaining_millis == 0 || current_interval != waited_interval {
        RefreshStep::FetchNow
    } else if remaining_millis < REFRESH_POLL_MILLIS {
        RefreshStep::SleepMillis(remaining_millis)
    } else {
        RefreshStep::SleepMillis(REFRESH_POLL_MILLIS)
    }
}

/// What the launch placement does next.
pub enum PlacementStep {
    /// Show (and focus) the window now.
    Show,
    /// Wait this many milliseconds, then look at the tray again.
    WaitMillis(u64),
}

/// The launch placement's step after `polls` looks at the tray beyond the
/// first: show the window once it is placed under the tray, at once when there
/// is no tray, and after `PLACEMENT_MAX_POLLS` looks in any case; otherwise
/// look again after `PLACEMENT_POLL_MILLIS`.
pub fn placement_step(has_tray: bool, placed: bool, polls: u32) -> (step: PlacementStep)
    ensures
        placed || !has_tray || polls >= 60 ==> step == PlacementStep::Show,
        !placed && has_tray && polls < 60 ==> step == PlacementStep::WaitMillis(100),
{
    if placed || !has_tray || polls >= PLACEMENT_MAX_POLLS {
        PlacementStep::Show
    } else {
        PlacementStep::WaitMillis(PLACEMENT_POLL_MILLIS)
    }
}

} // verus!
