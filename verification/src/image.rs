//! The image state and frame driver.
//!
//! Per frame: recompute every feature point's position for the frame's
//! phase, sample the distance field at every pixel, rescale the samples by
//! the frame's own maximum, and write the ramp colour of every pixel into
//! the flat RGB buffer.  The buffer is fully overwritten on every frame.

use vstd::prelude::*;
use vstd::arithmetic::div_mod::{lemma_fundamental_div_mod, lemma_multiply_divide_lt};

use crate::args::Args;
use crate::cells::{
    FeaturePoint, current_position, spec_current_position, generate_points, spec_axis_hi, AXIS_ONE,
};
use crate::trig::HALF_TURN;
use crate::color::{colour, spec_red, spec_green, spec_blue, NORM_ONE};
use crate::geom::{Point, in_range, dist_fp, spec_dist_fp, lemma_dist_fp_bound, DIST_FP_MAX};
use crate::rng::rng_from_seed;
use crate::sampler::{
    PointData, spec_raw_pd, spec_max_upto, spec_frame_norm, spec_positions, lemma_max_dominates,
    lemma_max_achieved, lemma_norm_bounded,
};

verus! {

/// Byte offset of pixel `p`'s red channel in a `w`-wide frame buffer.
pub open spec fn spec_pixel_base(w: int, p: Point) -> int {
    3 * (w * p.y + p.x)
}

/// The canvas diagonal: the distance from the origin to the far corner, the
/// sampler's un-improvable upper bound.
pub open spec fn spec_cross(w: u16, h: u16) -> int {
    spec_dist_fp(Point { x: 0, y: 0 }, Point { x: (w - 1) as i64, y: (h - 1) as i64 })
}

/// The canvas, the animation parameters, the feature-point field, and the
/// buffers that each frame overwrites.
pub struct Image {
    pub height: u16,
    pub width: u16,
    pub frames: u16,
    /// flat RGB frame buffer: 3 bytes per pixel, row-major
    pub pixels: Vec<u8>,
    /// per-pixel samples of the frame generated last
    pub point_data: Vec<PointData>,
    /// the canvas diagonal, in `DIST_ONE` units
    pub cross_distance: u64,
    /// the feature points that drive the field
    pub cells: Vec<FeaturePoint>,
}

impl Image {
    pub open spec fn wf(self) -> bool {
        &&& self.width >= 1
        &&& self.height >= 1
        &&& self.frames >= 1
        &&& self.pixels@.len() == 3 * ((self.width as int) * (self.height as int))
        &&& self.point_data@.len() == (self.width as int) * (self.height as int)
        &&& self.cross_distance == spec_cross(self.width, self.height)
        &&& forall|k: int|
            0 <= k < self.cells@.len() ==> (#[trigger] self.cells@[k]).wf(self.width, self.height)
    }

    /// The parts of the image that a frame computation must not disturb.
    pub open spec fn setup_is(self, w: u16, h: u16, f: u16, cross: u64, cs: Seq<FeaturePoint>) -> bool {
        &&& self.width == w
        &&& self.height == h
        &&& self.frames == f
        &&& self.cross_distance == cross
        &&& self.cells@ == cs
    }

    /// Builds the image state around a manually chosen field of feature
    /// points: zeroed pixel and sample buffers plus the canvas diagonal.
    pub fn create_with_cells(args: &Args, cells: Vec<FeaturePoint>) -> (img: Image)
        requires
            args.wf(),
            3 * ((args.width as int) * (args.height as int)) <= usize::MAX,
            forall|k: int|
                0 <= k < cells@.len() ==> (#[trigger] cells@[k]).wf(args.width, args.height),
        ensures
            img.wf(),
            img.width == args.width,
            img.height == args.height,
            img.frames == args.frames,
            img.cells@ == cells@,
            forall|k: int| 0 <= k < img.pixels@.len() ==> img.pixels@[k] == 0u8,
    {
        let w: u16 = args.width;
        let h: u16 = args.height;
        let n: usize = (w as usize) * (h as usize);
        let total: usize = 3 * n;
        let mut pixels: Vec<u8> = Vec::new();
        let mut i: usize = 0;
        while i < total
            invariant
                i <= total,
                pixels@.len() == i,
                forall|j: int| 0 <= j < i ==> pixels@[j] == 0u8,
            decreases total - i,
        {
            pixels.push(0u8);
            i = i + 1;
        }
        let mut point_data: Vec<PointData> = Vec::new();
        let mut i: usize = 0;
        while i < n
            invariant
                i <= n,
                point_data@.len() == i,
            decreases n - i,
        {
            point_data.push(PointData { min_dist: 0, closest_point: Point { x: 0, y: 0 } });
            i = i + 1;
        }
        let cross: u64 = dist_fp(
            Point { x: 0, y: 0 },
            Point { x: (w - 1) as i64, y: (h - 1) as i64 },
        );
        Image {
            height: h,
            width: w,
            frames: args.frames,
            pixels,
            point_data,
            cross_distance: cross,
            cells,
        }
    }

    /// Builds the image state from validated parameters, the feature points
    /// drawn from the generator seeded with `seed`: the same seed always
    /// reconstructs the same field.
    pub fn create_from_args(args: &Args, seed: u64) -> (img: Image)
        requires
            args.wf(),
            3 * ((args.width as int) * (args.height as int)) <= usize::MAX,
        ensures
            img.wf(),
            img.width == args.width,
            img.height == args.height,
            img.frames == args.frames,
            img.cells@.len() == args.num_cells,
            forall|k: int|
                0 <= k < args.num_cells ==> ((#[trigger] img.cells@[k])
                    matches FeaturePoint::Orbiting { width_fp, height_fp, angle, .. } && AXIS_ONE
                    <= width_fp < spec_axis_hi(args.width as int) && AXIS_ONE <= height_fp
                    < spec_axis_hi(args.height as int) && angle < HALF_TURN),
            forall|k: int| 0 <= k < img.pixels@.len() ==> img.pixels@[k] == 0u8,
    {
        let mut rng = rng_from_seed(seed);
        let cells: Vec<FeaturePoint> = generate_points(
            args.width,
            args.height,
            args.num_cells,
            &mut rng,
        );
        Image::create_with_cells(args, cells)
    }

    /// Writes one pixel's colour into the frame buffer.
    pub fn set_pixel(&mut self, r: u8, g: u8, b: u8, p: Point)
        requires
            0 <= p.x < old(self).width,
            0 <= p.y < old(self).height,
            old(self).pixels@.len() == 3 * ((old(self).width as int) * (old(self).height as int)),
        ensures
            final(self).pixels@ == old(self).pixels@.update(
                spec_pixel_base(old(self).width as int, p),
                r,
            ).update(spec_pixel_base(old(self).width as int, p) + 1, g).update(
                spec_pixel_base(old(self).width as int, p) + 2,
                b,
            ),
            final(self).width == old(self).width,
            final(self).height == old(self).height,
            final(self).frames == old(self).frames,
            final(self).cross_distance == old(self).cross_distance,
            final(self).cells@ == old(self).cells@,
            final(self).point_data@ == old(self).point_data@,
    {
        let len: usize = self.pixels.len();
        assert(0 <= (self.width as int) * p.y && (self.width as int) * p.y + p.x < (
        self.width as int) * (self.height as int)) by (nonlinear_arith)
            requires
                0 <= p.x < self.width as int,
                0 <= p.y < self.height as int,
        ;
        let idx: usize = (self.width as usize) * (p.y as usize) + (p.x as usize);
        let base: usize = 3 * idx;
        self.pixels[base] = r;
        self.pixels[base + 1] = g;
        self.pixels[base + 2] = b;
    }

    /// Generates one frame: advances the motion model to the frame's phase,
    /// samples the distance field at every pixel, normalizes by the frame's
    /// maximum and colours every pixel.
    ///
    /// Afterwards `point_data` holds exactly the normalized samples — all in
    /// `[0, NORM_ONE]`, with some pixel at `NORM_ONE` whenever the frame's
    /// maximum is non-zero — and `pixels` holds, pixel for pixel, the ramp
    /// colour of the normalized distance.
    pub fn generate_noise(&mut self, frame: u16)
        requires
            old(self).wf(),
        ensures
            final(self).wf(),
            final(self).width == old(self).width,
            final(self).height == old(self).height,
            final(self).frames == old(self).frames,
            final(self).cells@ == old(self).cells@,
            final(self).cross_distance == old(self).cross_distance,
            ({
                let pts = spec_positions(old(self).cells@, frame as int, old(self).frames as int);
                let w = old(self).width as int;
                let n = w * (old(self).height as int);
                let cross = old(self).cross_distance;
                &&& forall|k: int|
                    0 <= k < n ==> (#[trigger] final(self).point_data@[k]).min_dist
                        == spec_frame_norm(pts, cross, w, n, k)
                &&& forall|k: int|
                    0 <= k < n ==> (#[trigger] final(self).point_data@[k]).closest_point
                        == spec_raw_pd(pts, cross, w, k).closest_point
                &&& forall|k: int|
                    #![trigger spec_frame_norm(pts, cross, w, n, k)]
                    0 <= k < n ==> {
                        &&& final(self).pixels@[3 * k] == spec_red(
                            spec_frame_norm(pts, cross, w, n, k),
                        )
                        &&& final(self).pixels@[3 * k + 1] == spec_green(
                            spec_frame_norm(pts, cross, w, n, k),
                        )
                        &&& final(self).pixels@[3 * k + 2] == spec_blue(
                            spec_frame_norm(pts, cross, w, n, k),
                        )
                    }
                &&& forall|k: int|
                    0 <= k < n ==> (#[trigger] final(self).point_data@[k]).min_dist <= NORM_ONE
                &&& (spec_max_upto(pts, cross, w, n) > 0 ==> exists|k: int|
                    0 <= k < n && (#[trigger] final(self).point_data@[k]).min_dist == NORM_ONE)
            }),
    {
        let w: u16 = self.width;
        let h: u16 = self.height;
        let f: u16 = self.frames;
        let cross: u64 = self.cross_distance;
        let n: usize = self.point_data.len();
        let ghost cells0: Seq<FeaturePoint> = self.cells@;
        let ghost pts: Seq<Point> = spec_positions(cells0, frame as int, f as int);
        proof {
            lemma_dist_fp_bound(
                Point { x: 0, y: 0 },
                Point { x: (w - 1) as i64, y: (h - 1) as i64 },
            );
        }

        // advance the motion model: every feature point's position for this
        // frame's phase
        let ncells: usize = self.cells.len();
        let mut positions: Vec<Point> = Vec::new();
        let mut c: usize = 0;
        while c < ncells
            invariant
                c <= ncells,
                f >= 1,
                ncells == cells0.len(),
                self.cells@ == cells0,
                forall|j: int| 0 <= j < cells0.len() ==> (#[trigger] cells0[j]).wf(w, h),
                positions@.len() == c,
                forall|j: int|
                    0 <= j < c ==> positions@[j] == spec_current_position(
                        cells0[j],
                        frame as int,
                        f as int,
                    ),
                forall|j: int| 0 <= j < c ==> in_range(#[trigger] positions@[j]),
            decreases ncells - c,
        {
            let cell: FeaturePoint = self.cells[c];
            let p: Point = current_position(&cell, frame, f);
            positions.push(p);
            c = c + 1;
        }
        proof {
            assert(positions@ =~= pts);
        }

        // sample the distance field at every pixel, tracking the maximum
        let mut raw: Vec<PointData> = Vec::new();
        let mut maxd: u64 = 0;
        let mut k: usize = 0;
        while k < n
            invariant
                k <= n,
                w >= 1,
                h >= 1,
                n == (w as int) * (h as int),
                positions@ == pts,
                forall|j: int| 0 <= j < pts.len() ==> in_range(#[trigger] pts[j]),
                raw@.len() == k,
                forall|j: int|
                    0 <= j < k ==> raw@[j] == spec_raw_pd(pts, cross, w as int, j),
                forall|j: int| 0 <= j < k ==> (#[trigger] raw@[j]).min_dist <= cross,
                maxd == spec_max_upto(pts, cross, w as int, k as int),
            decreases n - k,
        {
            let x: usize = k % (w as usize);
            let y: usize = k / (w as usize);
            proof {
                lemma_multiply_divide_lt(k as int, w as int, h as int);
            }
            let p: Point = Point { x: x as i64, y: y as i64 };
            let pd: PointData = PointData::get_point_data(&positions, cross, p);
            if pd.min_dist > maxd {
                maxd = pd.min_dist;
            }
            raw.push(pd);
            k = k + 1;
        }

        // rescale every sample by the frame's maximum
        let mut norm_pd: Vec<PointData> = Vec::new();
        let mut k: usize = 0;
        while k < n
            invariant
                k <= n,
                cross < DIST_FP_MAX,
                n == (w as int) * (h as int),
                raw@.len() == n,
                forall|j: int|
                    0 <= j < n ==> raw@[j] == spec_raw_pd(pts, cross, w as int, j),
                forall|j: int| 0 <= j < n ==> (#[trigger] raw@[j]).min_dist <= cross,
                maxd == spec_max_upto(pts, cross, w as int, n as int),
                norm_pd@.len() == k,
                forall|j: int|
                    0 <= j < k ==> (#[trigger] norm_pd@[j]).min_dist == spec_frame_norm(
                        pts,
                        cross,
                        w as int,
                        n as int,
                        j,
                    ),
                forall|j: int|
                    0 <= j < k ==> (#[trigger] norm_pd@[j]).closest_point == spec_raw_pd(
                        pts,
                        cross,
                        w as int,
                        j,
                    ).closest_point,
                forall|j: int| 0 <= j < k ==> (#[trigger] norm_pd@[j]).min_dist <= NORM_ONE,
            decreases n - k,
        {
            let d: u64 = raw[k].min_dist;
            proof {
                lemma_max_dominates(pts, cross, w as int, n as int, k as int);
                lemma_norm_bounded(d, maxd);
            }
            let t: u64 = if maxd == 0 {
                0
            } else {
                (d * 65536) / maxd
            };
            norm_pd.push(PointData { min_dist: t, closest_point: raw[k].closest_point });
            k = k + 1;
        }
        self.point_data = norm_pd;

        // colour every pixel from its normalized distance
        let mut k: usize = 0;
        while k < n
            invariant
                k <= n,
                w >= 1,
                h >= 1,
                f >= 1,
                n == (w as int) * (h as int),
                cross == spec_cross(w, h),
                self.setup_is(w, h, f, cross, cells0),
                forall|j: int| 0 <= j < cells0.len() ==> (#[trigger] cells0[j]).wf(w, h),
                self.pixels@.len() == 3 * ((w as int) * (h as int)),
                self.point_data@.len() == n,
                forall|j: int|
                    0 <= j < n ==> (#[trigger] self.point_data@[j]).min_dist == spec_frame_norm(
                        pts,
                        cross,
                        w as int,
                        n as int,
                        j,
                    ),
                forall|j: int|
                    0 <= j < n ==> (#[trigger] self.point_data@[j]).closest_point == spec_raw_pd(
                        pts,
                        cross,
                        w as int,
                        j,
                    ).closest_point,
                forall|j: int| 0 <= j < n ==> (#[trigger] self.point_data@[j]).min_dist <= NORM_ONE,
                forall|j: int|
                    #![trigger spec_frame_norm(pts, cross, w as int, n as int, j)]
                    0 <= j < k ==> {
                        &&& self.pixels@[3 * j] == spec_red(
                            spec_frame_norm(pts, cross, w as int, n as int, j),
                        )
                        &&& self.pixels@[3 * j + 1] == spec_green(
                            spec_frame_norm(pts, cross, w as int, n as int, j),
                        )
                        &&& self.pixels@[3 * j + 2] == spec_blue(
                            spec_frame_norm(pts, cross, w as int, n as int, j),
                        )
                    },
            decreases n - k,
        {
            let t: u64 = self.point_data[k].min_dist;
            let rgb: (u8, u8, u8) = colour(t);
            let x: usize = k % (w as usize);
            let y: usize = k / (w as usize);
            proof {
                lemma_multiply_divide_lt(k as int, w as int, h as int);
                lemma_fundamental_div_mod(k as int, w as int);
            }
            let p: Point = Point { x: x as i64, y: y as i64 };
            self.set_pixel(rgb.0, rgb.1, rgb.2, p);
            proof {
                assert((w as int) * p.y + p.x == k as int);
            }
            k = k + 1;
        }
        proof {
            if spec_max_upto(pts, cross, w as int, n as int) > 0 {
                if n == 0 {
                    assert(spec_max_upto(pts, cross, w as int, 0) == 0);
                }
                lemma_max_achieved(pts, cross, w as int, n as int);
                let jw = choose|j: int|
                    0 <= j < n as int && spec_raw_pd(pts, cross, w as int, j).min_dist
                        == spec_max_upto(pts, cross, w as int, n as int);
                lemma_norm_bounded(maxd, maxd);
                assert(self.point_data@[jw].min_dist == NORM_ONE);
            }
        }
    }
}

/// Law: a frame is a function of the feature points, the canvas parameters
/// and the frame index alone — two images in the same state render, pixel
/// for pixel, the same normalized distances, so a reconstructed run repeats
/// its frames exactly.
pub proof fn lemma_render_deterministic(a: Image, b: Image, frame: u16, k: int)
    requires
        a.width == b.width,
        a.height == b.height,
        a.frames == b.frames,
        a.cross_distance == b.cross_distance,
        a.cells@ == b.cells@,
    ensures
        spec_frame_norm(
            spec_positions(a.cells@, frame as int, a.frames as int),
            a.cross_distance,
            a.width as int,
            (a.width as int) * (a.height as int),
            k,
        ) == spec_frame_norm(
            spec_positions(b.cells@, frame as int, b.frames as int),
            b.cross_distance,
            b.width as int,
            (b.width as int) * (b.height as int),
            k,
        ),
{
}

} // verus!
