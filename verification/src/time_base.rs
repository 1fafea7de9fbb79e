//! The time base: the single monotonic instant all scheduling math is
//! relative to.
//!
//! One origin is captured per playback session and owned by the loop
//! scheduler for the session's lifetime.  The instants fed to it must come
//! from a monotonic clock — never wall-clock time — so that pauses and
//! clock adjustments cannot distort offsets.  Resuming from a pause shifts
//! the origin forward instead of rewriting any scheduled fire time.

use vstd::prelude::*;

verus! {

/// A session's time origin, in monotonic milliseconds.
#[derive(Clone, Copy, Debug, PartialEq, Eq, Structural)]
pub struct TimeBase {
    pub origin_ms: u64,
}

impl TimeBase {
    /// Records `now_ms` as the session origin.
    pub fn capture(now_ms: u64) -> (t: TimeBase)
        ensures
            t.origin_ms == now_ms,
    {
        TimeBase { origin_ms: now_ms }
    }

    /// Duration since the origin.
    pub fn elapsed_ms(&self, now_ms: u64) -> (r: u64)
        requires
            now_ms >= self.origin_ms,
        ensures
            r == now_ms - self.origin_ms,
    {
        now_ms - self.origin_ms
    }

    /// The origin under which the frozen elapsed value holds again at
    /// `now_ms`: how a resume shifts the time base forward by exactly the
    /// paused duration.
    pub fn rebased(frozen_elapsed_ms: u64, now_ms: u64) -> (t: TimeBase)
        requires
            now_ms >= frozen_elapsed_ms,
        ensures
            t.origin_ms == now_ms - frozen_elapsed_ms,
    {
        TimeBase { origin_ms: now_ms - frozen_elapsed_ms }
    }
}

} // verus!
