//! Geometry primitives: integer points and an exact fixed-point Euclidean
//! distance built from an integer square root.

use vstd::prelude::*;
use vstd::arithmetic::mul::lemma_mul_upper_bound;

verus! {

/// One pixel, expressed in distance fixed point: distances are held in
/// units of `1 / DIST_ONE` of a pixel.
pub const DIST_ONE: u64 = 256;

/// Every coordinate the sampler ever sees (canvas pixels as well as feature
/// points, which may drift beyond the canvas edge) stays within this window.
pub const COORD_MAX: i64 = 131072;

/// `isqrt` accepts arguments below 2^60, so that its binary search can
/// square candidates without overflowing a `u64`.
pub const ISQRT_DOM: u64 = 0x1000000000000000;

/// Squared distances between in-range coordinates never reach this bound.
pub const DIST_SQ_MAX: u64 = 0x4000000000;

#[derive(Clone, Copy, PartialEq, Eq, Structural, Debug)]
pub struct Point {
    pub x: i64,
    pub y: i64,
}

pub open spec fn in_range(p: Point) -> bool {
    -COORD_MAX <= p.x <= COORD_MAX && -COORD_MAX <= p.y <= COORD_MAX
}

pub open spec fn spec_dist_sq(p: Point, q: Point) -> int {
    (q.x - p.x) * (q.x - p.x) + (q.y - p.y) * (q.y - p.y)
}

/// Floor of the square root of a non-negative integer.
pub open spec fn spec_isqrt(n: int) -> int
    decreases n,
{
    if n <= 0 {
        0
    } else {
        let r = spec_isqrt(n - 1);
        if (r + 1) * (r + 1) <= n {
            r + 1
        } else {
            r
        }
    }
}

/// `spec_isqrt(n)` is the unique `r >= 0` with `r * r <= n < (r + 1) * (r + 1)`.
pub proof fn lemma_isqrt_bounds(n: int)
    requires
        n >= 0,
    ensures
        0 <= spec_isqrt(n),
        spec_isqrt(n) * spec_isqrt(n) <= n,
        n < (spec_isqrt(n) + 1) * (spec_isqrt(n) + 1),
    decreases n,
{
    if n > 0 {
        lemma_isqrt_bounds(n - 1);
        let r = spec_isqrt(n - 1);
        if (r + 1) * (r + 1) <= n {
            assert((r + 2) * (r + 2) > (r + 1) * (r + 1) + 1) by (nonlinear_arith)
                requires
                    r >= 0,
            ;
        }
    }
}

pub proof fn lemma_isqrt_unique(n: int, r: int)
    requires
        n >= 0,
        r >= 0,
        r * r <= n,
        n < (r + 1) * (r + 1),
    ensures
        r == spec_isqrt(n),
{
    lemma_isqrt_bounds(n);
    let s = spec_isqrt(n);
    if r < s {
        assert((r + 1) * (r + 1) <= s * s) by (nonlinear_arith)
            requires
                0 <= r,
                r < s,
        ;
    }
    if s < r {
        assert((s + 1) * (s + 1) <= r * r) by (nonlinear_arith)
            requires
                0 <= s,
                s < r,
        ;
    }
}

/// Integer square root by binary search.
pub fn isqrt(n: u64) -> (r: u64)
    requires
        n < ISQRT_DOM,
    ensures
        r == spec_isqrt(n as int),
        r * r <= n,
{
    let mut lo: u64 = 0;
    let mut hi: u64 = 0x40000000;
    while lo + 1 < hi
        invariant
            lo < hi <= 0x40000000,
            lo * lo <= n,
            n < hi * hi,
        decreases hi - lo,
    {
        let mid: u64 = lo + (hi - lo) / 2;
        proof {
            lemma_mul_upper_bound(mid as int, 0x40000000, mid as int, 0x40000000);
        }
        if mid * mid <= n {
            lo = mid;
        } else {
            hi = mid;
        }
    }
    proof {
        lemma_isqrt_unique(n as int, lo as int);
    }
    lo
}

/// Exact squared Euclidean distance between two in-range points.
pub fn dist_sq(p: Point, q: Point) -> (d: u64)
    requires
        in_range(p),
        in_range(q),
    ensures
        d as int == spec_dist_sq(p, q),
        d < DIST_SQ_MAX,
{
    let dx: i64 = q.x - p.x;
    let dy: i64 = q.y - p.y;
    assert(0 <= dx * dx <= 0x1000000000) by (nonlinear_arith)
        requires
            -0x40000 <= dx <= 0x40000,
    ;
    assert(0 <= dy * dy <= 0x1000000000) by (nonlinear_arith)
        requires
            -0x40000 <= dy <= 0x40000,
    ;
    let sx: i64 = dx * dx;
    let sy: i64 = dy * dy;
    (sx as u64) + (sy as u64)
}

/// Euclidean distance between two points, in `DIST_ONE` units to the pixel,
/// rounded down.
pub open spec fn spec_dist_fp(p: Point, q: Point) -> int {
    spec_isqrt(spec_dist_sq(p, q) * (DIST_ONE * DIST_ONE))
}

/// Distances between in-range points fit comfortably below this bound.
pub const DIST_FP_MAX: u64 = 0x8000000;

/// Distances between in-range points stay below `DIST_FP_MAX`.
pub proof fn lemma_dist_fp_bound(p: Point, q: Point)
    requires
        in_range(p),
        in_range(q),
    ensures
        0 <= spec_dist_fp(p, q) < DIST_FP_MAX,
{
    let s = spec_dist_sq(p, q);
    assert(0 <= s < DIST_SQ_MAX) by (nonlinear_arith)
        requires
            -131072 <= p.x <= 131072,
            -131072 <= p.y <= 131072,
            -131072 <= q.x <= 131072,
            -131072 <= q.y <= 131072,
            s == (q.x - p.x) * (q.x - p.x) + (q.y - p.y) * (q.y - p.y),
            DIST_SQ_MAX == 0x4000000000,
    ;
    assert(s * (DIST_ONE * DIST_ONE) >= 0) by (nonlinear_arith)
        requires
            s >= 0,
    ;
    lemma_isqrt_bounds(s * (DIST_ONE * DIST_ONE));
    let r = spec_isqrt(s * (DIST_ONE * DIST_ONE));
    assert(r < DIST_FP_MAX) by (nonlinear_arith)
        requires
            r >= 0,
            r * r <= s * (DIST_ONE * DIST_ONE),
            0 <= s < DIST_SQ_MAX,
            DIST_ONE == 256,
            DIST_SQ_MAX == 0x4000000000,
            DIST_FP_MAX == 0x8000000,
    ;
}

pub fn dist_fp(p: Point, q: Point) -> (d: u64)
    requires
        in_range(p),
        in_range(q),
    ensures
        d == spec_dist_fp(p, q),
        d < DIST_FP_MAX,
{
    let s: u64 = dist_sq(p, q);
    let d: u64 = isqrt(s * (DIST_ONE * DIST_ONE));
    assert(d < DIST_FP_MAX) by (nonlinear_arith)
        requires
            d * d <= s * (DIST_ONE * DIST_ONE),
            s < DIST_SQ_MAX,
            DIST_ONE == 256,
            DIST_SQ_MAX == 0x4000000000,
            DIST_FP_MAX == 0x8000000,
    ;
    d
}

} // verus!
