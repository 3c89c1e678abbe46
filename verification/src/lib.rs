//! Procedural generator for a looping animation of drifting organic cells.
//!
//! Each frame renders a Worley-style distance field over a set of feature
//! points, some fixed and some travelling along random ellipses.  Per-pixel
//! distances are normalized by the frame's maximum and mapped through a
//! two-segment colour ramp into a flat RGB buffer.  All arithmetic is carried
//! out in integer fixed point so that every step of the pipeline has an exact
//! contract: distances in `DIST_ONE` units to the pixel, angles in `TURN`
//! units to the revolution, normalized distances in `NORM_ONE` units to 1.0.

pub mod geom;
pub mod trig;
pub mod rng;
pub mod cells;
pub mod args;
pub mod color;
pub mod sampler;
pub mod image;
pub mod progress;

pub use args::Args;
pub use args::ArgsError;
pub use cells::FeaturePoint;
pub use geom::Point;
pub use image::Image;
pub use sampler::PointData;
