//! The distance-field sampler and normalizer.
//!
//! For every pixel the sampler walks the current feature-point positions and
//! keeps the nearest one, starting from the canvas diagonal as the
//! un-improvable upper bound.  The normalizer then rescales the frame's
//! samples by the frame's own maximum into `[0, NORM_ONE]`.

use vstd::prelude::*;

use crate::geom::{Point, in_range, spec_dist_fp, dist_fp};
use crate::cells::{FeaturePoint, spec_current_position};
use crate::color::NORM_ONE;

verus! {

/// One pixel's sample: the distance to the nearest feature point (raw in
/// `DIST_ONE` units while sampling, then normalized to `NORM_ONE` units)
/// and which position achieved it.
#[derive(Clone, Copy, PartialEq, Eq, Structural, Debug)]
pub struct PointData {
    pub min_dist: u64,
    pub closest_point: Point,
}

/// The sample after considering the first `k` feature-point positions,
/// starting from `init`: a strict improvement moves the minimum, so ties
/// keep the earliest position in iteration order.
pub open spec fn spec_pd_upto(pts: Seq<Point>, init: PointData, p: Point, k: int) -> PointData
    decreases k,
{
    if k <= 0 {
        init
    } else {
        let prev = spec_pd_upto(pts, init, p, k - 1);
        let d = spec_dist_fp(p, pts[k - 1]);
        if 0 <= d < prev.min_dist {
            PointData { min_dist: d as u64, closest_point: pts[k - 1] }
        } else {
            prev
        }
    }
}

/// The full sample of pixel `p` against all positions, seeded with the
/// canvas diagonal `cross` and a zero placeholder for the nearest position.
pub open spec fn spec_point_data(pts: Seq<Point>, cross: u64, p: Point) -> PointData {
    spec_pd_upto(
        pts,
        PointData { min_dist: cross, closest_point: Point { x: 0, y: 0 } },
        p,
        pts.len() as int,
    )
}

/// Law: a sampled distance never exceeds the starting upper bound — in a
/// frame, the canvas diagonal — and, being unsigned, never drops below zero.
pub proof fn lemma_sample_bounded(pts: Seq<Point>, init: PointData, p: Point, k: int)
    ensures
        spec_pd_upto(pts, init, p, k).min_dist <= init.min_dist,
    decreases k,
{
    if k > 0 {
        lemma_sample_bounded(pts, init, p, k - 1);
    }
}

impl PointData {
    /// Nearest feature-point position and its distance from `p`, starting
    /// from the canvas diagonal as the upper bound.  Iterates every position
    /// with no early exit; ties resolve to the earliest position.
    pub fn get_point_data(points: &Vec<Point>, cross_distance: u64, p: Point) -> (pd: PointData)
        requires
            in_range(p),
            forall|j: int| 0 <= j < points@.len() ==> in_range(#[trigger] points@[j]),
        ensures
            pd == spec_point_data(points@, cross_distance, p),
            pd.min_dist <= cross_distance,
    {
        let ghost init = PointData {
            min_dist: cross_distance,
            closest_point: Point { x: 0, y: 0 },
        };
        let mut pd = PointData { min_dist: cross_distance, closest_point: Point { x: 0, y: 0 } };
        let mut j: usize = 0;
        while j < points.len()
            invariant
                j <= points@.len(),
                in_range(p),
                forall|q: int| 0 <= q < points@.len() ==> in_range(#[trigger] points@[q]),
                pd == spec_pd_upto(points@, init, p, j as int),
                init == (PointData { min_dist: cross_distance, closest_point: Point { x: 0, y: 0 } }),
            decreases points@.len() - j,
        {
            let d: u64 = dist_fp(p, points[j]);
            if d < pd.min_dist {
                pd = PointData { min_dist: d, closest_point: points[j] };
            }
            j = j + 1;
        }
        proof {
            lemma_sample_bounded(points@, init, p, points@.len() as int);
        }
        pd
    }
}

/// Pixel `k` of a `w`-wide canvas, row-major.
pub open spec fn spec_pixel_at(w: int, k: int) -> Point {
    Point { x: (k % w) as i64, y: (k / w) as i64 }
}

/// The raw (un-normalized) sample of pixel `k`.
pub open spec fn spec_raw_pd(pts: Seq<Point>, cross: u64, w: int, k: int) -> PointData {
    spec_point_data(pts, cross, spec_pixel_at(w, k))
}

/// The largest raw sample among the first `k` pixels (zero for an empty
/// prefix).
pub open spec fn spec_max_upto(pts: Seq<Point>, cross: u64, w: int, k: int) -> u64
    decreases k,
{
    if k <= 0 {
        0
    } else {
        let m = spec_max_upto(pts, cross, w, k - 1);
        let d = spec_raw_pd(pts, cross, w, k - 1).min_dist;
        if d > m {
            d
        } else {
            m
        }
    }
}

/// Every raw sample in the prefix is within the prefix's maximum.
pub proof fn lemma_max_dominates(pts: Seq<Point>, cross: u64, w: int, k: int, j: int)
    requires
        0 <= j < k,
    ensures
        spec_raw_pd(pts, cross, w, j).min_dist <= spec_max_upto(pts, cross, w, k),
    decreases k,
{
    if j < k - 1 {
        lemma_max_dominates(pts, cross, w, k - 1, j);
    }
}

/// The maximum of a non-empty prefix is achieved by one of its pixels.
pub proof fn lemma_max_achieved(pts: Seq<Point>, cross: u64, w: int, k: int)
    requires
        k >= 1,
    ensures
        exists|j: int|
            0 <= j < k && spec_raw_pd(pts, cross, w, j).min_dist == spec_max_upto(
                pts,
                cross,
                w,
                k,
            ),
    decreases k,
{
    let m = spec_max_upto(pts, cross, w, k);
    let d = spec_raw_pd(pts, cross, w, k - 1).min_dist;
    if k == 1 {
        assert(spec_raw_pd(pts, cross, w, 0).min_dist == m);
    } else if d > spec_max_upto(pts, cross, w, k - 1) {
        assert(spec_raw_pd(pts, cross, w, k - 1).min_dist == m);
    } else {
        lemma_max_achieved(pts, cross, w, k - 1);
        let j = choose|j: int|
            0 <= j < k - 1 && spec_raw_pd(pts, cross, w, j).min_dist == spec_max_upto(
                pts,
                cross,
                w,
                k - 1,
            );
        assert(spec_raw_pd(pts, cross, w, j).min_dist == m);
    }
}

/// A raw sample rescaled by the frame's maximum into `NORM_ONE` units.
/// A frame whose maximum is zero (every pixel sits on a feature point, or a
/// 1 x 1 canvas) normalizes to zero rather than dividing by zero.
pub open spec fn spec_norm(d: u64, m: u64) -> int {
    if m == 0 {
        0
    } else {
        (d * 65536) / (m as int)
    }
}

/// Law: normalized distances lie in `[0, NORM_ONE]`, and a sample equal to
/// the (non-zero) maximum normalizes to exactly `NORM_ONE`.
pub proof fn lemma_norm_bounded(d: u64, m: u64)
    requires
        d <= m,
    ensures
        0 <= spec_norm(d, m) <= NORM_ONE,
        m > 0 ==> spec_norm(m, m) == NORM_ONE,
{
    if m > 0 {
        assert((d * 65536) / (m as int) <= 65536 && (m * 65536) / (m as int) == 65536)
            by (nonlinear_arith)
            requires
                0 <= d <= m,
                m > 0,
        ;
    }
}

/// All feature-point positions for frame `i` of an `f`-frame animation.
pub open spec fn spec_positions(cells: Seq<FeaturePoint>, i: int, f: int) -> Seq<Point> {
    Seq::new(cells.len(), |k: int| spec_current_position(cells[k], i, f))
}

/// The normalized distance of pixel `k` in a frame of `n` pixels.
pub open spec fn spec_frame_norm(pts: Seq<Point>, cross: u64, w: int, n: int, k: int) -> int {
    spec_norm(spec_raw_pd(pts, cross, w, k).min_dist, spec_max_upto(pts, cross, w, n))
}

/// Law: with no feature points, every pixel samples the canvas diagonal
/// itself, so the whole frame normalizes to 1.0 — except on a canvas whose
/// diagonal is zero, where it normalizes to 0.
pub proof fn lemma_empty_field_uniform(pts: Seq<Point>, cross: u64, w: int, n: int, k: int)
    requires
        pts.len() == 0,
        0 <= k < n,
    ensures
        spec_frame_norm(pts, cross, w, n, k) == if cross == 0 {
            0int
        } else {
            NORM_ONE as int
        },
{
    lemma_empty_field_max(pts, cross, w, n);
    lemma_norm_bounded(cross, cross);
}

proof fn lemma_empty_field_max(pts: Seq<Point>, cross: u64, w: int, n: int)
    requires
        pts.len() == 0,
        n >= 1,
    ensures
        spec_max_upto(pts, cross, w, n) == cross,
    decreases n,
{
    assert(spec_raw_pd(pts, cross, w, n - 1).min_dist == cross);
    if n > 1 {
        lemma_empty_field_max(pts, cross, w, n - 1);
    } else {
        assert(spec_max_upto(pts, cross, w, 0) == 0);
    }
}

} // verus!
