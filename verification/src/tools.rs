//! Small arithmetic helpers shared by the movement, animation and combat
//! modules: truncating fixed-point division, linear interpolation, the
//! decaying clamp used for velocity caps, and an integer square root.

use vstd::prelude::*;

verus! {

/// Magnitude bound on speeds, accelerations and coordinates (thousandths of
/// a unit).  Keeping every such quantity within this bound keeps all the
/// products formed by the crate inside `i64`.
pub const KINEMATIC_LIMIT: i64 = 1_000_000_000;

/// Largest per-tick time delta accepted by the movement systems, in
/// milliseconds (one minute).
pub const DT_LIMIT_MS: u32 = 60_000;

/// Magnitude bound on the values handed to the decaying clamp; wide enough
/// for any velocity a tick of acceleration can produce.
pub const CLAMP_LIMIT: i64 = 200 * KINEMATIC_LIMIT;

/// Division that truncates toward zero, as machine division does, rather
/// than toward minus infinity.  Unspecified for `b <= 0`.
pub open spec fn div_trunc(a: int, b: int) -> int {
    if a >= 0 {
        a / b
    } else {
        -((-a) / b)
    }
}

/// Divide, truncating toward zero.
pub fn div_trunc_i64(a: i64, b: i64) -> (r: i64)
    requires
        1 <= b,
        -0x7fff_ffff_ffff_ffff <= a,
    ensures
        r == div_trunc(a as int, b as int),
{
    if a >= 0 {
        ((a as u64) / (b as u64)) as i64
    } else {
        let m: u64 = (-a) as u64;
        proof {
            assert(m as int / b as int <= m as int) by (nonlinear_arith)
                requires 1 <= b as int;
        }
        -((m / (b as u64)) as i64)
    }
}

/// Linear interpolation from `from` to `to` by `progress` thousandths.
pub open spec fn lerp_spec(from: int, to: int, progress_milli: int) -> int {
    from + div_trunc((to - from) * progress_milli, 1000)
}

/// Interpolate between two fixed-point values by a progress ratio in
/// thousandths (`0` gives `from`, `1000` gives `to`).
pub fn lerp(from: i64, to: i64, progress_milli: u32) -> (r: i64)
    requires
        progress_milli <= 1000,
        -KINEMATIC_LIMIT <= from <= KINEMATIC_LIMIT,
        -KINEMATIC_LIMIT <= to <= KINEMATIC_LIMIT,
    ensures
        r == lerp_spec(from as int, to as int, progress_milli as int),
        from <= to ==> from <= r <= to,
        to <= from ==> to <= r <= from,
        -KINEMATIC_LIMIT <= r <= KINEMATIC_LIMIT,
{
    let diff: i64 = to - from;
    proof {
        let d = diff as int;
        let p = progress_milli as int;
        // The scaled step never overshoots: it stays between zero and the
        // full difference, so the result stays between `from` and `to`.
        if d >= 0 {
            assert(0 <= d * p <= d * 1000) by (nonlinear_arith)
                requires
                    0 <= d,
                    0 <= p <= 1000;
            assert(0 <= (d * p) / 1000 <= d) by (nonlinear_arith)
                requires
                    0 <= d * p <= d * 1000;
        } else {
            assert(0 <= (-d) * p <= (-d) * 1000) by (nonlinear_arith)
                requires
                    0 <= -d,
                    0 <= p <= 1000;
            assert(0 <= ((-d) * p) / 1000 <= -d) by (nonlinear_arith)
                requires
                    0 <= (-d) * p <= (-d) * 1000;
            assert((-d) * p == -(d * p)) by (nonlinear_arith);
        }
    }
    let scaled: i64 = div_trunc_i64(diff * (progress_milli as i64), 1000);
    from + scaled
}

/// The decaying clamp: a value already inside `[low, high]` is untouched;
/// a value outside moves `by` toward the violated bound, stopping at it.
pub open spec fn clamp_shift_spec(val: int, low: int, high: int, by: int) -> int {
    if low <= val && val <= high {
        val
    } else if val < low {
        if val + by <= low {
            val + by
        } else {
            low
        }
    } else {
        if val - by >= high {
            val - by
        } else {
            high
        }
    }
}

/// Shift an out-of-range value toward the range `[low, high]` by at most
/// `by`, leaving in-range values unchanged.  Used to bleed speed off
/// smoothly instead of snapping to the cap.
pub fn clamp_shift(val: i64, low: i64, high: i64, by: i64) -> (r: i64)
    requires
        low <= high,
        0 <= by <= 2 * CLAMP_LIMIT,
        -CLAMP_LIMIT <= val <= CLAMP_LIMIT,
        -CLAMP_LIMIT <= low <= CLAMP_LIMIT,
        -CLAMP_LIMIT <= high <= CLAMP_LIMIT,
    ensures
        r == clamp_shift_spec(val as int, low as int, high as int, by as int),
        (if val < low { val as int } else { low as int }) <= r,
        r <= (if val > high { val as int } else { high as int }),
{
    if val >= low && val <= high {
        val
    } else if val < low {
        let shifted: i64 = val + by;
        if shifted <= low {
            shifted
        } else {
            low
        }
    } else {
        let shifted: i64 = val - by;
        if shifted >= high {
            shifted
        } else {
            high
        }
    }
}

/// The decaying clamp only ever moves a value toward the range, never
/// past it and never away from it: an in-range value is untouched, and a
/// value beyond a bound comes back by at most `by`, stopping at the
/// bound.  In particular a velocity already within its caps stays within
/// them.
pub proof fn lemma_clamp_shift_approaches(val: int, low: int, high: int, by: int)
    requires
        low <= high,
        0 <= by,
    ensures
        low <= val <= high ==> clamp_shift_spec(val, low, high, by) == val,
        val > high ==> high <= clamp_shift_spec(val, low, high, by) <= val,
        val < low ==> val <= clamp_shift_spec(val, low, high, by) <= low,
{
}

/// Largest `r` with `r * r <= n`.
pub fn isqrt(n: u64) -> (r: u64)
    ensures
        r * r <= n,
        (r + 1) * (r + 1) > n,
        r <= 0xffff_ffff,
{
    let mut lo: u64 = 0;
    let mut hi: u64 = 0x1_0000_0000;
    // Binary search on the invariant lo*lo <= n < hi*hi.
    proof {
        assert(hi * hi > n) by (nonlinear_arith)
            requires hi == 0x1_0000_0000, n <= 0xffff_ffff_ffff_ffff;
    }
    while lo + 1 < hi
        invariant
            lo < hi,
            hi <= 0x1_0000_0000,
            lo * lo <= n,
            hi * hi > n,
        decreases hi - lo,
    {
        let mid: u64 = lo + (hi - lo) / 2;
        proof {
            assert(mid * mid <= 0xffff_ffff_ffff_ffff) by (nonlinear_arith)
                requires mid <= 0xffff_ffff;
        }
        if mid * mid <= n {
            lo = mid;
        } else {
            hi = mid;
        }
    }
    lo
}

} // verus!
