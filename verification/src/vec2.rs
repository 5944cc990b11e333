//! Fixed-point planar vectors: positions, velocities and directions are
//! pairs of thousandths of a world unit.

use vstd::prelude::*;
use crate::tools::{div_trunc, div_trunc_i64, isqrt, KINEMATIC_LIMIT};

verus! {

/// A planar vector in thousandths of a unit.
#[derive(Clone, Copy, Debug, PartialEq, Eq, Structural)]
pub struct Vec2i {
    pub x: i64,
    pub y: i64,
}

/// Whether `deg` is one of the eight compass headings, in degrees.
pub open spec fn is_octant_angle(deg: int) -> bool {
    deg == 0 || deg == 45 || deg == 90 || deg == 135 || deg == 180 || deg == 225
        || deg == 270 || deg == 315
}

/// Cosine of a compass heading, in thousandths.
pub open spec fn cos_milli(deg: int) -> int {
    if deg == 0 {
        1000
    } else if deg == 45 {
        707
    } else if deg == 90 {
        0
    } else if deg == 135 {
        -707
    } else if deg == 180 {
        -1000
    } else if deg == 225 {
        -707
    } else if deg == 270 {
        0
    } else {
        707
    }
}

/// Sine of a compass heading, in thousandths.
pub open spec fn sin_milli(deg: int) -> int {
    if deg == 0 {
        0
    } else if deg == 45 {
        707
    } else if deg == 90 {
        1000
    } else if deg == 135 {
        707
    } else if deg == 180 {
        0
    } else if deg == 225 {
        -707
    } else if deg == 270 {
        -1000
    } else {
        -707
    }
}

impl Vec2i {
    /// Both coordinates within `m` in magnitude.
    pub open spec fn bounded(self, m: int) -> bool {
        -m <= self.x <= m && -m <= self.y <= m
    }

    /// The origin vector.
    pub fn zero() -> (v: Vec2i)
        ensures
            v.x == 0,
            v.y == 0,
    {
        Vec2i { x: 0, y: 0 }
    }

    /// Whether both coordinates are zero.
    pub fn is_zero(&self) -> (r: bool)
        ensures
            r == (self.x == 0 && self.y == 0),
    {
        self.x == 0 && self.y == 0
    }

    /// Squared length, exact.
    pub fn norm_sq(&self) -> (r: u64)
        requires
            self.bounded(2 * KINEMATIC_LIMIT as int),
        ensures
            r == self.x * self.x + self.y * self.y,
    {
        proof {
            assert(0 <= self.x * self.x <= 4_000_000_000_000_000_000) by (nonlinear_arith)
                requires -2_000_000_000 <= self.x <= 2_000_000_000;
            assert(0 <= self.y * self.y <= 4_000_000_000_000_000_000) by (nonlinear_arith)
                requires -2_000_000_000 <= self.y <= 2_000_000_000;
        }
        let xs: i64 = self.x * self.x;
        let ys: i64 = self.y * self.y;
        (xs as u64) + (ys as u64)
    }

    /// Scale by a ratio in thousandths, truncating toward zero on each axis.
    pub fn scale_milli(&self, factor: i64) -> (r: Vec2i)
        requires
            self.bounded(2000),
            -KINEMATIC_LIMIT <= factor <= KINEMATIC_LIMIT,
        ensures
            r.x == div_trunc(self.x * factor, 1000),
            r.y == div_trunc(self.y * factor, 1000),
            r.bounded(2 * KINEMATIC_LIMIT as int),
    {
        proof {
            assert(-2_000_000_000_000 <= self.x * factor <= 2_000_000_000_000)
                by (nonlinear_arith)
                requires
                    -2000 <= self.x <= 2000,
                    -1_000_000_000 <= factor <= 1_000_000_000;
            assert(-2_000_000_000_000 <= self.y * factor <= 2_000_000_000_000)
                by (nonlinear_arith)
                requires
                    -2000 <= self.y <= 2000,
                    -1_000_000_000 <= factor <= 1_000_000_000;
            assert forall|v: int| -2_000_000_000_000 <= v <= 2_000_000_000_000
                implies -2_000_000_000 <= #[trigger] div_trunc(v, 1000) <= 2_000_000_000 by {
                assert(-2_000_000_000 <= div_trunc(v, 1000) <= 2_000_000_000)
                    by (nonlinear_arith)
                    requires -2_000_000_000_000 <= v <= 2_000_000_000_000;
            }
        }
        Vec2i {
            x: div_trunc_i64(self.x * factor, 1000),
            y: div_trunc_i64(self.y * factor, 1000),
        }
    }

    /// Direction of the same heading whose length is close to one unit
    /// (a thousand thousandths): each coordinate becomes
    /// `coordinate * 1000 / length`, with the length rounded down.
    pub fn normalize_milli(&self) -> (r: Vec2i)
        requires
            self.bounded(2 * KINEMATIC_LIMIT as int),
            !(self.x == 0 && self.y == 0),
        ensures
            ({
                let len = isqrt_spec((self.x * self.x + self.y * self.y) as nat);
                r.x == div_trunc(self.x * 1000, len as int)
                    && r.y == div_trunc(self.y * 1000, len as int)
            }),
            r.bounded(1000),
    {
        proof {
            assert(0 <= self.x * self.x <= 4_000_000_000_000_000_000) by (nonlinear_arith)
                requires -2_000_000_000 <= self.x <= 2_000_000_000;
            assert(0 <= self.y * self.y <= 4_000_000_000_000_000_000) by (nonlinear_arith)
                requires -2_000_000_000 <= self.y <= 2_000_000_000;
        }
        let xs: i64 = self.x * self.x;
        let ys: i64 = self.y * self.y;
        let n: u64 = (xs as u64) + (ys as u64);
        let len: u64 = isqrt(n);
        proof {
            assert(n == self.x * self.x + self.y * self.y);
            assert(is_isqrt(n as nat, len as nat));
            lemma_isqrt_unique(n as nat, len as nat);
            lemma_isqrt_covers_coordinate(self.x as int, self.y as int, len as int);
            assert(1 <= len);
        }
        let rx: i64 = div_trunc_i64(self.x * 1000, len as i64);
        let ry: i64 = div_trunc_i64(self.y * 1000, len as i64);
        proof {
            lemma_normalized_coordinate_bounded(self.x as int, len as int);
            lemma_normalized_coordinate_bounded(self.y as int, len as int);
        }
        Vec2i { x: rx, y: ry }
    }

    /// Rotate counterclockwise by a compass heading, in fixed point:
    /// `x' = (x cos - y sin) / 1000`, `y' = (x sin + y cos) / 1000`,
    /// with the cosine and sine taken in thousandths and the divisions
    /// truncating toward zero.
    pub fn rotate_octant(&self, deg: u32) -> (r: Vec2i)
        requires
            is_octant_angle(deg as int),
            self.bounded(KINEMATIC_LIMIT as int),
        ensures
            r.x == div_trunc(self.x * cos_milli(deg as int) - self.y * sin_milli(deg as int),
                1000),
            r.y == div_trunc(self.x * sin_milli(deg as int) + self.y * cos_milli(deg as int),
                1000),
            r.bounded(2 * KINEMATIC_LIMIT as int),
    {
        let c: i64 = cos_milli_of(deg);
        let s: i64 = sin_milli_of(deg);
        proof {
            assert(-1_000_000_000_000 <= self.x * c <= 1_000_000_000_000) by (nonlinear_arith)
                requires
                    -1_000_000_000 <= self.x <= 1_000_000_000,
                    -1000 <= c <= 1000;
            assert(-1_000_000_000_000 <= self.y * s <= 1_000_000_000_000) by (nonlinear_arith)
                requires
                    -1_000_000_000 <= self.y <= 1_000_000_000,
                    -1000 <= s <= 1000;
            assert(-1_000_000_000_000 <= self.x * s <= 1_000_000_000_000) by (nonlinear_arith)
                requires
                    -1_000_000_000 <= self.x <= 1_000_000_000,
                    -1000 <= s <= 1000;
            assert(-1_000_000_000_000 <= self.y * c <= 1_000_000_000_000) by (nonlinear_arith)
                requires
                    -1_000_000_000 <= self.y <= 1_000_000_000,
                    -1000 <= c <= 1000;
            assert forall|v: int| -2_000_000_000_000 <= v <= 2_000_000_000_000
                implies -2_000_000_000 <= #[trigger] div_trunc(v, 1000) <= 2_000_000_000 by {
                assert(-2_000_000_000 <= div_trunc(v, 1000) <= 2_000_000_000)
                    by (nonlinear_arith)
                    requires -2_000_000_000_000 <= v <= 2_000_000_000_000;
            }
        }
        Vec2i {
            x: div_trunc_i64(self.x * c - self.y * s, 1000),
            y: div_trunc_i64(self.x * s + self.y * c, 1000),
        }
    }
}

/// Whether `r` is the rounded-down square root of `n`.
pub open spec fn is_isqrt(n: nat, r: nat) -> bool {
    r * r <= n && (r + 1) * (r + 1) > n
}

/// The rounded-down square root, as a specification value.
pub open spec fn isqrt_spec(n: nat) -> nat {
    choose|r: nat| is_isqrt(n, r)
}

/// The executable square root matches `isqrt_spec`: the rounded-down root
/// is unique.
pub proof fn lemma_isqrt_unique(n: nat, r: nat)
    requires
        is_isqrt(n, r),
    ensures
        isqrt_spec(n) == r,
{
    let w = isqrt_spec(n);
    assert(is_isqrt(n, w)) by {
        assert(is_isqrt(n, r));
    }
    assert(w == r) by (nonlinear_arith)
        requires
            r * r <= n,
            (r + 1) * (r + 1) > n,
            w * w <= n,
            (w + 1) * (w + 1) > n;
}

/// A rounded-down square root of `x*x + y*y` is at least `|x|` and `|y|`,
/// and in particular positive when the vector is not the origin.
proof fn lemma_isqrt_covers_coordinate(x: int, y: int, len: int)
    requires
        len >= 0,
        len * len <= x * x + y * y,
        (len + 1) * (len + 1) > x * x + y * y,
    ensures
        (x != 0 || y != 0) ==> len >= 1,
        -len <= x <= len,
        -len <= y <= len,
{
    assert((x != 0 || y != 0) ==> len >= 1) by (nonlinear_arith)
        requires
            len >= 0,
            (len + 1) * (len + 1) > x * x + y * y;
    // If |x| exceeded len it would be at least len + 1, making x * x alone
    // larger than the sum of squares.
    assert(-len <= x <= len && -len <= y <= len) by (nonlinear_arith)
        requires
            len >= 0,
            (len + 1) * (len + 1) > x * x + y * y;
}

/// Dividing `x * 1000` by a length no smaller than `|x|` keeps the result
/// within one unit.
proof fn lemma_normalized_coordinate_bounded(x: int, len: int)
    requires
        1 <= len,
        -len <= x <= len,
    ensures
        -1000 <= div_trunc(x * 1000, len) <= 1000,
{
    if x >= 0 {
        assert(0 <= x * 1000 / len <= 1000) by (nonlinear_arith)
            requires 1 <= len, 0 <= x <= len;
    } else {
        assert(0 <= (-x) * 1000 / len <= 1000) by (nonlinear_arith)
            requires 1 <= len, 0 < -x <= len;
    }
}

/// Cosine lookup for the eight compass headings, in thousandths.
pub fn cos_milli_of(deg: u32) -> (r: i64)
    requires
        is_octant_angle(deg as int),
    ensures
        r == cos_milli(deg as int),
        -1000 <= r <= 1000,
{
    if deg == 0 {
        1000
    } else if deg == 45 {
        707
    } else if deg == 90 {
        0
    } else if deg == 135 {
        -707
    } else if deg == 180 {
        -1000
    } else if deg == 225 {
        -707
    } else if deg == 270 {
        0
    } else {
        707
    }
}

/// Sine lookup for the eight compass headings, in thousandths.
pub fn sin_milli_of(deg: u32) -> (r: i64)
    requires
        is_octant_angle(deg as int),
    ensures
        r == sin_milli(deg as int),
        -1000 <= r <= 1000,
{
    if deg == 0 {
        0
    } else if deg == 45 {
        707
    } else if deg == 90 {
        1000
    } else if deg == 135 {
        707
    } else if deg == 180 {
        0
    } else if deg == 225 {
        -707
    } else if deg == 270 {
        -1000
    } else {
        -707
    }
}

} // verus!
