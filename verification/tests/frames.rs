//! Frame-pipeline scenarios: a small canvas end to end, the empty field,
//! the degenerate one-pixel canvas, and seed-driven reconstruction.

use bubbles::args::Args;
use bubbles::cells::FeaturePoint;
use bubbles::geom::Point;
use bubbles::image::Image;

#[test]
fn end_to_end_four_by_four_single_static_cell() {
    let args = Args::read(4, 4, 1, 1, String::from("o")).unwrap();
    let cells = vec![FeaturePoint::Static { pos: Point { x: 0, y: 0 } }];
    let mut img = Image::create_with_cells(&args, cells);
    // the canvas diagonal, sqrt(18) pixels in 1/256-pixel units
    assert_eq!(img.cross_distance, 1086);
    img.generate_noise(0);

    // the pixel on the feature point normalizes to 0, the far corner to 1
    assert_eq!(img.point_data[0].min_dist, 0);
    assert_eq!(img.point_data[15].min_dist, 65536);
    // every normalized distance stays within [0, 1]
    for pd in &img.point_data {
        assert!(pd.min_dist <= 65536);
    }
    // colours at the two extremes match the ramp exactly
    assert_eq!(&img.pixels[0..3], &[255, 204, 255]);
    assert_eq!(&img.pixels[45..48], &[0, 0, 0]);
    assert_eq!(img.pixels.len(), 4 * 4 * 3);
}

#[test]
fn at_least_one_pixel_reaches_the_maximum() {
    let args = Args::read(9, 7, 4, 3, String::from("o")).unwrap();
    let mut img = Image::create_from_args(&args, 99);
    img.generate_noise(2);
    assert!(img.point_data.iter().any(|pd| pd.min_dist == 65536));
    for pd in &img.point_data {
        assert!(pd.min_dist <= 65536);
    }
}

#[test]
fn empty_field_degrades_to_a_uniform_frame() {
    let args = Args::read(4, 4, 1, 0, String::from("o")).unwrap();
    let mut img = Image::create_from_args(&args, 0);
    img.generate_noise(0);
    // every pixel samples the diagonal itself and normalizes to 1.0
    for pd in &img.point_data {
        assert_eq!(pd.min_dist, 65536);
    }
    // a normalized distance of 1.0 maps to black
    for byte in &img.pixels {
        assert_eq!(*byte, 0);
    }
}

#[test]
fn one_pixel_canvas_has_a_zero_maximum_and_still_renders() {
    let args = Args::read(1, 1, 1, 0, String::from("o")).unwrap();
    let mut img = Image::create_from_args(&args, 0);
    assert_eq!(img.cross_distance, 0);
    img.generate_noise(0);
    // a zero maximum normalizes to 0 rather than dividing by zero
    assert_eq!(img.point_data[0].min_dist, 0);
    assert_eq!(&img.pixels[0..3], &[255, 204, 255]);
}

#[test]
fn same_seed_reconstructs_byte_identical_frames() {
    let args = Args::read(16, 12, 3, 5, String::from("o")).unwrap();
    let mut one = Image::create_from_args(&args, 12345);
    let mut two = Image::create_from_args(&args, 12345);
    let mut frame: u16 = 0;
    while frame < 3 {
        one.generate_noise(frame);
        two.generate_noise(frame);
        assert_eq!(one.pixels, two.pixels);
        frame += 1;
    }
}

#[test]
fn rendering_a_frame_twice_repeats_it_exactly() {
    let args = Args::read(8, 8, 2, 4, String::from("o")).unwrap();
    let mut img = Image::create_from_args(&args, 77);
    img.generate_noise(1);
    let first = img.pixels.clone();
    img.generate_noise(1);
    assert_eq!(img.pixels, first);
}
