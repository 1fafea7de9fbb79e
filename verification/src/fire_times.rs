//! Absolute fire-time arithmetic.
//!
//! All scheduling math is relative to a single session origin.  The instant
//! at which loop iteration `n` must begin sounding is always recomputed from
//! the closed form `origin + intro + n * loop`, never kept as a running sum
//! of successive durations, so no error can accumulate over many iterations.

use vstd::prelude::*;

verus! {

/// Offset from the session origin, in milliseconds, at which loop iteration
/// `n` (counted from 0) must begin sounding: the intro plays once, then `n`
/// whole passes over the loop body have gone by.
pub open spec fn fire_offset(intro_ms: int, loop_ms: int, n: int) -> int {
    intro_ms + n * loop_ms
}

/// The same offset written the naive way, as a running sum of successive
/// durations, one addition per iteration.
pub open spec fn fire_offset_running_sum(intro_ms: int, loop_ms: int, n: nat) -> int
    decreases n,
{
    if n == 0 {
        intro_ms
    } else {
        fire_offset_running_sum(intro_ms, loop_ms, (n - 1) as nat) + loop_ms
    }
}

/// Law: for every iteration count `n`, the closed form `intro + n * loop`
/// equals the running sum of `n` successive loop durations, so recomputing
/// from the origin can never drift from the accumulated schedule, no matter
/// how many iterations have played.
pub proof fn lemma_fire_offset_closed_form(intro_ms: int, loop_ms: int, n: nat)
    ensures
        fire_offset(intro_ms, loop_ms, n as int) == fire_offset_running_sum(intro_ms, loop_ms, n),
    decreases n,
{
    if n == 0 {
        assert(fire_offset(intro_ms, loop_ms, 0) == intro_ms);
    } else {
        lemma_fire_offset_closed_form(intro_ms, loop_ms, (n - 1) as nat);
        assert((n - 1) * loop_ms + loop_ms == n * loop_ms) by (nonlinear_arith);
    }
}

/// Absolute fire time of loop iteration `n` in a session whose origin is
/// `origin_ms`, computed in 128-bit arithmetic so that no admissible input
/// can overflow.
pub fn wide_fire_time(origin_ms: u64, intro_ms: u64, loop_ms: u64, n: u64) -> (r: u128)
    ensures
        r == origin_ms + fire_offset(intro_ms as int, loop_ms as int, n as int),
{
    proof {
        vstd::arithmetic::mul::lemma_mul_upper_bound(
            n as int,
            u64::MAX as int,
            loop_ms as int,
            u64::MAX as int,
        );
    }
    origin_ms as u128 + intro_ms as u128 + (n as u128) * (loop_ms as u128)
}

/// Absolute fire time of loop iteration `n`, or `None` when the instant no
/// longer fits in 64-bit milliseconds.
pub fn checked_fire_time(origin_ms: u64, intro_ms: u64, loop_ms: u64, n: u64) -> (r: Option<u64>)
    ensures
        match r {
            Some(t) => t == origin_ms + fire_offset(intro_ms as int, loop_ms as int, n as int),
            None => origin_ms + fire_offset(intro_ms as int, loop_ms as int, n as int) > u64::MAX,
        },
{
    let t = wide_fire_time(origin_ms, intro_ms, loop_ms, n);
    if t <= u64::MAX as u128 {
        Some(t as u64)
    } else {
        None
    }
}

} // verus!
