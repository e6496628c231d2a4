//! Frame pacing: the least time between two presents.

use vstd::prelude::*;

verus! {

/// The frame rate that the loop does not exceed.
pub const TARGET_FPS: u64 = 30;

/// The pacing interval in milliseconds: a thousand over the frame rate,
/// rounded down.
pub const FRAME_INTERVAL_MS: u64 = 33;

/// How long to block when `elapsed` of an interval has passed: the rest of
/// the interval, or nothing once it is over.
pub open spec fn wait_needed(interval: int, elapsed: int) -> int {
    if elapsed < interval {
        interval - elapsed
    } else {
        0
    }
}

/// The pacing interval for a frame rate, in milliseconds; nothing for a rate
/// of zero.
pub fn interval_for(fps: u64) -> (interval: Option<u64>)
    ensures
        fps == 0 ==> interval is None,
        fps > 0 ==> (interval matches Some(ms) && ms == 1000int / (fps as int)),
{
    if fps == 0 {
        None
    } else {
        Some(1000 / fps)
    }
}

/// How long the loop blocks before its next frame, given the time since the
/// last present. An iteration that took the whole interval or more is not
/// delayed further, and nothing is made up for afterwards.
pub fn remaining_wait(interval_ms: u64, elapsed_ms: u64) -> (wait_ms: u64)
    ensures
        wait_ms == wait_needed(interval_ms as int, elapsed_ms as int),
{
    if elapsed_ms < interval_ms {
        interval_ms - elapsed_ms
    } else {
        0
    }
}

/// The interval is a floor: after the wait at least the interval has passed
/// since the last present, and no more than the longer of the interval and
/// the time already spent.
pub proof fn wait_completes_interval(interval: int, elapsed: int)
    requires
        0 <= interval,
        0 <= elapsed,
    ensures
        0 <= wait_needed(interval, elapsed) <= interval,
        elapsed + wait_needed(interval, elapsed) >= interval,
        elapsed + wait_needed(interval, elapsed) == if elapsed < interval {
            interval
        } else {
            elapsed
        },
        elapsed >= interval ==> wait_needed(interval, elapsed) == 0,
{
}

/// The fixed interval is the one of the fixed frame rate.
pub proof fn frame_interval_matches_rate()
    ensures
        FRAME_INTERVAL_MS == 1000int / (TARGET_FPS as int),
{
}

} // verus!
