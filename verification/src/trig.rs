//! Fixed-point circular functions.
//!
//! Angles are fractions of a revolution in `TURN` units; sine and cosine are
//! scaled by `SIN_ONE` and computed with Bhaskara's rational approximation,
//! which is exact at the quarter points and keeps every value inside
//! `[-SIN_ONE, SIN_ONE]`.

use vstd::prelude::*;
use vstd::arithmetic::mul::lemma_mul_upper_bound;

verus! {

/// One full revolution, in angle units.
pub const TURN: u64 = 65536;

pub const HALF_TURN: u64 = 32768;

pub const QUARTER_TURN: u64 = 16384;

/// The value standing for 1.0 in sine/cosine results.
pub const SIN_ONE: u64 = 4096;

/// Bhaskara's approximation of `sin` on `[0, HALF_TURN]`, scaled by
/// `SIN_ONE`: `16 u / (5 H^2 - 4 u)` with `u = y (H - y)`.
pub open spec fn spec_half_sine(y: int) -> int {
    let u = y * (HALF_TURN - y);
    (16 * SIN_ONE * u) / (5 * (HALF_TURN * HALF_TURN) - 4 * u)
}

pub open spec fn spec_sine(x: int) -> int {
    let a = x % (TURN as int);
    if a <= HALF_TURN {
        spec_half_sine(a)
    } else {
        -spec_half_sine(a - HALF_TURN)
    }
}

pub open spec fn spec_cosine(x: int) -> int {
    spec_sine(x + QUARTER_TURN)
}

fn half_sine(y: u64) -> (s: u64)
    requires
        y <= HALF_TURN,
    ensures
        s == spec_half_sine(y as int),
        s <= SIN_ONE,
{
    proof {
        lemma_mul_upper_bound(y as int, 32768, (HALF_TURN - y) as int, 32768);
    }
    let u: u64 = y * (HALF_TURN - y);
    assert(4 * u <= HALF_TURN * HALF_TURN) by (nonlinear_arith)
        requires
            u == y * (HALF_TURN - y),
            0 <= y <= HALF_TURN,
            HALF_TURN == 32768,
    ;
    let num: u64 = 16 * SIN_ONE * u;
    let den: u64 = 5 * (HALF_TURN * HALF_TURN) - 4 * u;
    let s: u64 = num / den;
    assert(s <= SIN_ONE) by (nonlinear_arith)
        requires
            s == num / den,
            num == 16 * SIN_ONE * u,
            den == 5 * (HALF_TURN * HALF_TURN) - 4 * u,
            4 * u <= HALF_TURN * HALF_TURN,
            HALF_TURN == 32768,
            SIN_ONE == 4096,
    ;
    s
}

pub fn sine(x: u64) -> (s: i64)
    ensures
        s == spec_sine(x as int),
        -(SIN_ONE as i64) <= s <= SIN_ONE as i64,
{
    let a: u64 = x % TURN;
    if a <= HALF_TURN {
        half_sine(a) as i64
    } else {
        -(half_sine(a - HALF_TURN) as i64)
    }
}

pub fn cosine(x: u64) -> (s: i64)
    requires
        x < TURN * TURN,
    ensures
        s == spec_cosine(x as int),
        -(SIN_ONE as i64) <= s <= SIN_ONE as i64,
{
    sine(x + QUARTER_TURN)
}

} // verus!
