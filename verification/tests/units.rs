//! Unit tests for the geometry, trigonometry, colour ramp, progress bar and
//! parameter validation.

use bubbles::args::{Args, ArgsError};
use bubbles::cells::{generate_points, current_position, FeaturePoint};
use bubbles::color::colour;
use bubbles::geom::{dist_fp, isqrt, Point};
use bubbles::progress::progress_bar;
use bubbles::sampler::PointData;
use bubbles::trig::{cosine, sine};

#[test]
fn isqrt_exact_squares_and_floors() {
    assert_eq!(isqrt(0), 0);
    assert_eq!(isqrt(1), 1);
    assert_eq!(isqrt(24), 4);
    assert_eq!(isqrt(25), 5);
    assert_eq!(isqrt(26), 5);
    assert_eq!(isqrt(1179648), 1086);
}

#[test]
fn distance_of_a_three_four_five_triangle() {
    let p = Point { x: 0, y: 0 };
    let q = Point { x: 3, y: 4 };
    // 5 pixels, in 1/256-pixel units
    assert_eq!(dist_fp(p, q), 5 * 256);
    assert_eq!(dist_fp(q, p), 5 * 256);
    assert_eq!(dist_fp(p, p), 0);
}

#[test]
fn sine_quarter_points() {
    assert_eq!(sine(0), 0);
    assert_eq!(sine(16384), 4096);
    assert_eq!(sine(32768), 0);
    assert_eq!(sine(49152), -4096);
    assert_eq!(sine(65536), 0);
    assert_eq!(cosine(0), 4096);
    assert_eq!(cosine(16384), 0);
    assert_eq!(cosine(32768), -4096);
}

#[test]
fn sine_symmetry_and_range() {
    // symmetric about the quarter turn, antisymmetric about the half turn
    assert_eq!(sine(8192), sine(24576));
    assert_eq!(sine(32768 + 8192), -sine(8192));
    let mut a: u64 = 0;
    while a < 65536 {
        let s = sine(a);
        assert!(-4096 <= s && s <= 4096);
        a += 1024;
    }
}

#[test]
fn colour_table_of_the_two_segment_ramp() {
    // d = 0: near-white, green trailing blue at four fifths
    assert_eq!(colour(0), (255, 204, 255));
    // d = 0.25: mid warm ramp
    assert_eq!(colour(16384), (230, 101, 127));
    // just under d = 0.5: blue has run out
    assert_eq!(colour(32767), (205, 0, 0));
    // at d = 0.5 the second segment starts
    assert_eq!(colour(32768), (204, 0, 0));
    // d = 0.75: red fading
    assert_eq!(colour(49152), (102, 0, 0));
    // d = 1: black
    assert_eq!(colour(65536), (0, 0, 0));
}

#[test]
fn progress_bar_counts() {
    // half done on an 80-column terminal: 74 bar cells, 40 of them filled
    assert_eq!(progress_bar(80, 10, 5), (40, 34, 50));
    // done: the raw fraction overshoots the bar and is clamped
    assert_eq!(progress_bar(80, 10, 10), (74, 0, 100));
    // nothing done yet
    assert_eq!(progress_bar(80, 10, 0), (0, 74, 0));
    // a terminal narrower than the readout leaves no bar cells
    assert_eq!(progress_bar(5, 10, 5), (0, 0, 50));
}

#[test]
fn args_read_accepts_and_copies() {
    let a = Args::read(640, 480, 24, 32, String::from("out.gif")).unwrap();
    assert_eq!(a.width, 640);
    assert_eq!(a.height, 480);
    assert_eq!(a.frames, 24);
    assert_eq!(a.num_cells, 32);
    assert_eq!(a.out, "out.gif");
}

#[test]
fn args_read_rejects_each_zero_in_order() {
    assert_eq!(
        Args::read(0, 480, 24, 32, String::from("o")).unwrap_err(),
        ArgsError::ZeroWidth
    );
    assert_eq!(
        Args::read(640, 0, 24, 32, String::from("o")).unwrap_err(),
        ArgsError::ZeroHeight
    );
    assert_eq!(
        Args::read(640, 480, 0, 32, String::from("o")).unwrap_err(),
        ArgsError::ZeroFrames
    );
    // width is checked first
    assert_eq!(
        Args::read(0, 0, 0, 0, String::from("o")).unwrap_err(),
        ArgsError::ZeroWidth
    );
    // zero cells are allowed: the field degrades instead of failing
    assert!(Args::read(4, 4, 1, 0, String::from("o")).is_ok());
}

#[test]
fn generated_points_keep_the_documented_invariant() {
    let mut rng = <rand::rngs::StdRng as rand::SeedableRng>::seed_from_u64(1);
    let cells = generate_points(100, 80, 7, &mut rng);
    assert_eq!(cells.len(), 7);
    for cell in &cells {
        match cell {
            FeaturePoint::Orbiting { centre, width_fp, height_fp, angle, .. } => {
                assert!(0 <= centre.x && centre.x < 100);
                assert!(0 <= centre.y && centre.y < 80);
                // axes in [1, dim / 5) pixels, in 1/16-pixel units
                assert!(16 <= *width_fp && *width_fp < 16 * 100 / 5);
                assert!(16 <= *height_fp && *height_fp < 16 * 80 / 5);
                assert!(*angle < 32768);
            }
            FeaturePoint::Static { .. } => panic!("random cells always orbit"),
        }
    }
}

#[test]
fn orbit_returns_after_a_whole_animation() {
    let cell = FeaturePoint::Orbiting {
        centre: Point { x: 40, y: 30 },
        width_fp: 160,
        height_fp: 96,
        angle: 12000,
        flipped: false,
    };
    let start = current_position(&cell, 0, 8);
    assert_eq!(current_position(&cell, 8, 8), start);
    let reversed = FeaturePoint::Orbiting {
        centre: Point { x: 40, y: 30 },
        width_fp: 160,
        height_fp: 96,
        angle: 12000,
        flipped: true,
    };
    let rstart = current_position(&reversed, 0, 8);
    assert_eq!(current_position(&reversed, 8, 8), rstart);
}

#[test]
fn nearest_point_search_improves_on_the_diagonal() {
    let points = vec![Point { x: 2, y: 2 }, Point { x: 3, y: 3 }];
    let pd = PointData::get_point_data(&points, 1086, Point { x: 0, y: 0 });
    // sqrt(8) pixels in 1/256-pixel units
    assert_eq!(pd.min_dist, 724);
    assert_eq!(pd.closest_point, Point { x: 2, y: 2 });
}

#[test]
fn nearest_point_ties_keep_the_earliest() {
    // both points sit sqrt(2) away from the origin
    let points = vec![Point { x: 1, y: 1 }, Point { x: -1, y: -1 }];
    let pd = PointData::get_point_data(&points, 1086, Point { x: 0, y: 0 });
    assert_eq!(pd.closest_point, Point { x: 1, y: 1 });
}
