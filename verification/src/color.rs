//! The colour mapper: a pure two-segment ramp from normalized distance to
//! an RGB triple, giving a pink/red "flesh" gradient.
//!
//! Normalized distances are held in `NORM_ONE` units to 1.0.  On `[0, 0.5)`
//! the ramp runs from near-white down through pink; on `[0.5, 1]` red fades
//! linearly to black.  With the input confined to `[0, NORM_ONE]` every
//! intermediate value stays within a byte, so the ramp saturates and never
//! wraps.

use vstd::prelude::*;

verus! {

/// The value standing for a normalized distance of 1.0.
pub const NORM_ONE: u64 = 65536;

/// The value standing for a normalized distance of 0.5, where the two ramp
/// segments meet.
pub const HALF_NORM: u64 = 32768;

/// Red channel: `255 - 102 d` below one half, `255 - (408 (d - 1/2) + 51)`
/// above, for `d = t / NORM_ONE`.
pub open spec fn spec_red(t: int) -> int {
    if t < HALF_NORM {
        255 - (102 * t) / 65536
    } else {
        255 - (51 + (408 * (t - HALF_NORM)) / 65536)
    }
}

/// Blue channel: `255 - 512 d` below one half, zero above.
pub open spec fn spec_blue(t: int) -> int {
    if t < HALF_NORM {
        255 - (512 * t) / 65536
    } else {
        0
    }
}

/// Green channel trails blue at four fifths to warm the tone, and is zero on
/// the red segment.
pub open spec fn spec_green(t: int) -> int {
    if t < HALF_NORM {
        (spec_blue(t) * 4) / 5
    } else {
        0
    }
}

/// Maps one normalized distance to its RGB triple.  A pure function of `t`:
/// the same normalized distance always yields the same colour.
pub fn colour(t: u64) -> (rgb: (u8, u8, u8))
    requires
        t <= NORM_ONE,
    ensures
        rgb.0 == spec_red(t as int),
        rgb.1 == spec_green(t as int),
        rgb.2 == spec_blue(t as int),
{
    if t < HALF_NORM {
        let red: u64 = 255 - (102 * t) / 65536;
        let blue: u64 = 255 - (512 * t) / 65536;
        let green: u64 = (blue * 4) / 5;
        (red as u8, green as u8, blue as u8)
    } else {
        let red: u64 = 255 - (51 + (408 * (t - HALF_NORM)) / 65536);
        (red as u8, 0u8, 0u8)
    }
}

} // verus!
