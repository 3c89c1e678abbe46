//! Feature points: the moving anchors of the cellular noise field.
//!
//! A feature point is either a fixed position or a point travelling along a
//! random ellipse.  An orbiting point's position for a frame is derived from
//! the frame's phase: the polar radius of the ellipse at the travel angle
//! sets how far from the centre the point sits, and the phase angle sets
//! where around the centre it is rendered, which couples the point's speed
//! to the ellipse's own geometry.

use vstd::prelude::*;
use vstd::arithmetic::div_mod::{lemma_mod_multiples_vanish, lemma_multiply_divide_lt};

use crate::geom::{Point, in_range, spec_isqrt, isqrt};
use crate::trig::{TURN, HALF_TURN, SIN_ONE, spec_sine, spec_cosine, sine, cosine};
use crate::rng::rng_range;

verus! {

/// Ellipse axis lengths are held in `AXIS_ONE` units to the pixel.
pub const AXIS_ONE: u64 = 16;

/// Hard cap on stored axis lengths; random draws stay well below it.
pub const AXIS_MAX: u64 = 262144;

/// Orbit radii and offsets are held in `POS_ONE` units to the pixel.
pub const POS_ONE: u64 = 16;

/// No orbit radius exceeds this, thanks to the cap in `spec_radius_fp`.
pub const RADIUS_FP_MAX: u64 = 131088;

/// Offsets from an orbit's centre stay within this many whole pixels.
pub const OFFSET_MAX: i64 = 8193;

#[derive(Clone, Copy, PartialEq, Eq, Structural, Debug)]
pub enum FeaturePoint {
    /// A fixed position, chosen once.
    Static { pos: Point },
    /// A point travelling along an ellipse.
    Orbiting {
        centre: Point,
        /// full axis length of the ellipse along x, in `AXIS_ONE` units
        width_fp: u64,
        /// full axis length of the ellipse along y, in `AXIS_ONE` units
        height_fp: u64,
        /// initial travel angle, in `TURN` units
        angle: u64,
        /// reverses the sense of travel around the ellipse
        flipped: bool,
    },
}

impl FeaturePoint {
    /// Field bounds that every feature point keeps, whatever the canvas.
    pub open spec fn bounded(self) -> bool {
        match self {
            FeaturePoint::Static { pos } => 0 <= pos.x <= 65534 && 0 <= pos.y <= 65534,
            FeaturePoint::Orbiting { centre, width_fp, height_fp, angle, .. } => {
                &&& 0 <= centre.x <= 65534
                &&& 0 <= centre.y <= 65534
                &&& AXIS_ONE <= width_fp <= AXIS_MAX
                &&& AXIS_ONE <= height_fp <= AXIS_MAX
                &&& angle < TURN
            },
        }
    }

    /// Well-formed for a `w x h` canvas: anchored inside the canvas, with
    /// non-degenerate, capped axes.
    pub open spec fn wf(self, w: u16, h: u16) -> bool {
        self.bounded() && match self {
            FeaturePoint::Static { pos } => pos.x < w && pos.y < h,
            FeaturePoint::Orbiting { centre, .. } => centre.x < w && centre.y < h,
        }
    }
}

/// Phase of frame `i` out of `f`, in `TURN` units: the fraction `i / f` of a
/// revolution.  Only the residue of `i` modulo `f` matters, which is what
/// makes the animation loop seamlessly.
pub open spec fn spec_phase(i: int, f: int) -> int {
    (TURN * (i % f)) / f
}

pub fn phase(i: u16, f: u16) -> (ph: u64)
    requires
        f >= 1,
    ensures
        ph == spec_phase(i as int, f as int),
        ph < TURN,
{
    let r: u64 = (i % f) as u64;
    let ph: u64 = (TURN * r) / (f as u64);
    proof {
        lemma_multiply_divide_lt((TURN * r) as int, f as int, TURN as int);
    }
    ph
}

/// `r * s`, rescaled from `SIN_ONE * POS_ONE` fixed point to whole pixels,
/// truncated toward zero.
pub open spec fn spec_offset(r: int, s: int) -> int {
    if s >= 0 {
        (r * s) / 65536
    } else {
        -((r * (-s)) / 65536)
    }
}

fn offset(r: u64, s: i64) -> (o: i64)
    requires
        r <= RADIUS_FP_MAX,
        -(SIN_ONE as i64) <= s <= SIN_ONE as i64,
    ensures
        o == spec_offset(r as int, s as int),
        -OFFSET_MAX <= o <= OFFSET_MAX,
{
    let sm: u64 = if s >= 0 {
        s as u64
    } else {
        (-s) as u64
    };
    assert(r * sm <= 536936448) by (nonlinear_arith)
        requires
            0 <= r <= 131088,
            0 <= sm <= 4096,
    ;
    let m: u64 = (r * sm) / 65536;
    assert(m <= 8193);
    if s >= 0 {
        m as i64
    } else {
        -(m as i64)
    }
}

/// Largest of the two semi-axes, rescaled to `POS_ONE` units, plus one whole
/// pixel of slack: an upper bound that the orbit radius is clamped to.
pub open spec fn spec_cap(sw: int, sh: int) -> int {
    (if sw >= sh {
        sw
    } else {
        sh
    }) * (POS_ONE as int) / (AXIS_ONE as int) + POS_ONE
}

/// Polar radius of an ellipse with semi-axes `sw`, `sh` (in `AXIS_ONE`
/// units) at travel angle `eff`, in `POS_ONE` units:
/// `sw * sh / sqrt(sw^2 sin^2 + sh^2 cos^2)`, clamped to `spec_cap` (which
/// also stands in for the quotient when the fixed-point denominator rounds
/// to zero near the sine and cosine zero crossings).
pub open spec fn spec_radius_fp(sw: int, sh: int, eff: int) -> int {
    let s = spec_sine(eff);
    let c = spec_cosine(eff);
    let den = spec_isqrt((sw * s) * (sw * s) + (sh * c) * (sh * c));
    let cap = spec_cap(sw, sh);
    if den == 0 {
        cap
    } else {
        let raw = (sw * sh * 65536) / (den * (AXIS_ONE as int));
        if raw <= cap {
            raw
        } else {
            cap
        }
    }
}

fn radius_fp(sw: u64, sh: u64, eff: u64) -> (r: u64)
    requires
        8 <= sw <= AXIS_MAX / 2,
        8 <= sh <= AXIS_MAX / 2,
        eff < TURN,
    ensures
        r == spec_radius_fp(sw as int, sh as int, eff as int),
        r <= RADIUS_FP_MAX,
{
    let s: i64 = sine(eff);
    let c: i64 = cosine(eff);
    let sm: u64 = if s >= 0 {
        s as u64
    } else {
        (-s) as u64
    };
    let cm: u64 = if c >= 0 {
        c as u64
    } else {
        (-c) as u64
    };
    assert(sw * sm <= 0x20000000 && sh * cm <= 0x20000000) by (nonlinear_arith)
        requires
            0 <= sw <= 0x20000,
            0 <= sm <= 0x1000,
            0 <= sh <= 0x20000,
            0 <= cm <= 0x1000,
    ;
    let ds: u64 = sw * sm;
    let dc: u64 = sh * cm;
    proof {
        assert(ds * ds <= 0x400000000000000 && dc * dc <= 0x400000000000000) by (nonlinear_arith)
            requires
                0 <= ds <= 0x20000000,
                0 <= dc <= 0x20000000,
        ;
        assert((sw as int * s) * (sw as int * s) == ds * ds && (sh as int * c) * (sh as int * c)
            == dc * dc) by (nonlinear_arith)
            requires
                sm == if s >= 0 { s as int } else { -(s as int) },
                cm == if c >= 0 { c as int } else { -(c as int) },
                ds == sw * sm,
                dc == sh * cm,
        ;
    }
    let den_sq: u64 = ds * ds + dc * dc;
    let den: u64 = isqrt(den_sq);
    let mx: u64 = if sw >= sh {
        sw
    } else {
        sh
    };
    let cap: u64 = mx * POS_ONE / AXIS_ONE + POS_ONE;
    if den == 0 {
        cap
    } else {
        proof {
            assert(sw * sh <= 0x400000000) by (nonlinear_arith)
                requires
                    0 <= sw <= 0x20000,
                    0 <= sh <= 0x20000,
            ;
            assert(den <= 0x40000000) by (nonlinear_arith)
                requires
                    den * den <= den_sq,
                    den_sq < 0x1000000000000000u64,
            ;
        }
        let num: u64 = sw * sh * 65536;
        let raw: u64 = num / (den * AXIS_ONE);
        if raw <= cap {
            raw
        } else {
            cap
        }
    }
}

/// Position of a feature point for frame `i` of an `f`-frame animation.
/// A static point never moves; an orbiting point sits `radius` away from
/// its centre at the phase angle, `radius` being the ellipse's polar radius
/// at the (possibly reversed) travel angle.
pub open spec fn spec_current_position(cell: FeaturePoint, i: int, f: int) -> Point {
    match cell {
        FeaturePoint::Static { pos } => pos,
        FeaturePoint::Orbiting { centre, width_fp, height_fp, angle, flipped } => {
            let ph = spec_phase(i, f);
            let eff = (angle + ph) % (TURN as int);
            let r = spec_radius_fp(width_fp as int / 2, height_fp as int / 2, eff);
            let s = if flipped {
                -spec_sine(ph)
            } else {
                spec_sine(ph)
            };
            let c = spec_cosine(ph);
            Point {
                x: (centre.x + spec_offset(r, s)) as i64,
                y: (centre.y + spec_offset(r, c)) as i64,
            }
        },
    }
}

pub fn current_position(cell: &FeaturePoint, i: u16, f: u16) -> (p: Point)
    requires
        f >= 1,
        cell.bounded(),
    ensures
        p == spec_current_position(*cell, i as int, f as int),
        in_range(p),
{
    match cell {
        FeaturePoint::Static { pos } => *pos,
        FeaturePoint::Orbiting { centre, width_fp, height_fp, angle, flipped } => {
            let ph: u64 = phase(i, f);
            let eff: u64 = (*angle + ph) % TURN;
            let r: u64 = radius_fp(*width_fp / 2, *height_fp / 2, eff);
            let s0: i64 = sine(ph);
            let s: i64 = if *flipped {
                -s0
            } else {
                s0
            };
            let c: i64 = cosine(ph);
            let ox: i64 = offset(r, s);
            let oy: i64 = offset(r, c);
            Point { x: centre.x + ox, y: centre.y + oy }
        },
    }
}

/// The motion model loops seamlessly: advancing any feature point by a whole
/// animation's worth of frames brings it back to the same position.
pub proof fn lemma_motion_periodic(cell: FeaturePoint, i: int, f: int)
    requires
        f >= 1,
    ensures
        spec_current_position(cell, i + f, f) == spec_current_position(cell, i, f),
{
    lemma_mod_multiples_vanish(1, i, f);
    assert(f * 1 + i == i + f);
}

/// Upper end of the random axis draw for a canvas dimension: a fifth of the
/// dimension, in `AXIS_ONE` units, kept above `AXIS_ONE` so the range
/// `[AXIS_ONE, hi)` is never empty even on a tiny canvas.
pub open spec fn spec_axis_hi(dim: int) -> int {
    if (AXIS_ONE * dim) / 5 > AXIS_ONE {
        (AXIS_ONE * dim) / 5
    } else {
        AXIS_ONE + 1
    }
}

fn axis_hi(dim: u16) -> (hi: u64)
    ensures
        hi == spec_axis_hi(dim as int),
        AXIS_ONE < hi <= AXIS_MAX,
{
    let raw: u64 = AXIS_ONE * (dim as u64) / 5;
    if raw > AXIS_ONE {
        raw
    } else {
        AXIS_ONE + 1
    }
}

/// Draws one orbiting feature point: centre uniform in the canvas, axis
/// lengths uniform in `[1, dim / 5)` pixels (or the smallest non-empty range
/// on a tiny canvas), travel angle uniform in a half turn, direction a coin
/// flip.
pub fn create_random_ellipse(width: u16, height: u16, rng: &mut rand::rngs::StdRng) -> (cell:
    FeaturePoint)
    requires
        width >= 1,
        height >= 1,
    ensures
        cell.wf(width, height),
        cell matches FeaturePoint::Orbiting { width_fp, height_fp, angle, .. }
            && AXIS_ONE <= width_fp < spec_axis_hi(width as int)
            && AXIS_ONE <= height_fp < spec_axis_hi(height as int)
            && angle < HALF_TURN,
{
    let cx: u64 = rng_range(rng, 0, width as u64);
    let cy: u64 = rng_range(rng, 0, height as u64);
    let hh: u64 = rng_range(rng, AXIS_ONE, axis_hi(height));
    let ww: u64 = rng_range(rng, AXIS_ONE, axis_hi(width));
    let ang: u64 = rng_range(rng, 0, HALF_TURN);
    let dir: u64 = rng_range(rng, 0, 2);
    FeaturePoint::Orbiting {
        centre: Point { x: cx as i64, y: cy as i64 },
        width_fp: ww,
        height_fp: hh,
        angle: ang,
        flipped: dir == 1,
    }
}

/// Generates the full field of `num_cells` orbiting feature points, each
/// drawn independently and each carrying the construction invariant of
/// `create_random_ellipse`.
pub fn generate_points(width: u16, height: u16, num_cells: usize, rng: &mut rand::rngs::StdRng)
    -> (cells: Vec<FeaturePoint>)
    requires
        width >= 1,
        height >= 1,
    ensures
        cells@.len() == num_cells,
        forall|k: int| 0 <= k < num_cells ==> (#[trigger] cells@[k]).wf(width, height),
        forall|k: int|
            0 <= k < num_cells ==> ((#[trigger] cells@[k]) matches FeaturePoint::Orbiting {
                width_fp,
                height_fp,
                angle,
                ..
            } && AXIS_ONE <= width_fp < spec_axis_hi(width as int) && AXIS_ONE <= height_fp
                < spec_axis_hi(height as int) && angle < HALF_TURN),
{
    let mut cells: Vec<FeaturePoint> = Vec::new();
    let mut n: usize = 0;
    while n < num_cells
        invariant
            width >= 1,
            height >= 1,
            n <= num_cells,
            cells@.len() == n,
            forall|k: int| 0 <= k < n ==> (#[trigger] cells@[k]).wf(width, height),
            forall|k: int|
                0 <= k < n ==> ((#[trigger] cells@[k]) matches FeaturePoint::Orbiting {
                    width_fp,
                    height_fp,
                    angle,
                    ..
                } && AXIS_ONE <= width_fp < spec_axis_hi(width as int) && AXIS_ONE <= height_fp
                    < spec_axis_hi(height as int) && angle < HALF_TURN),
        decreases num_cells - n,
    {
        let cell: FeaturePoint = create_random_ellipse(width, height, rng);
        cells.push(cell);
        n = n + 1;
    }
    cells
}

} // verus!
