//! The progress indicator's arithmetic: how much of a terminal-wide textual
//! bar a completed frame fills.  Printing the bar is left to the caller; the
//! counts and the percentage are what this module pins down.

use vstd::prelude::*;

verus! {

/// How many character cells the bar spans on a terminal `width` columns
/// wide: everything but the six cells reserved for the percentage readout.
pub open spec fn spec_bar_total(width: int) -> int {
    if width >= 6 {
        width - 6
    } else {
        0
    }
}

/// How many of those cells are filled when `received` of `max` frames are
/// done: the fraction of the terminal width, clamped to the bar's span.
pub open spec fn spec_bar_filled(width: int, max: int, received: int) -> int {
    let raw = (received * width) / max;
    if raw <= spec_bar_total(width) {
        raw
    } else {
        spec_bar_total(width)
    }
}

/// Computes the bar for one completed frame: filled cells, empty cells, and
/// the percentage to display.
pub fn progress_bar(width: u16, max: u16, received: u16) -> (bar: (u16, u16, u32))
    requires
        max >= 1,
    ensures
        bar.0 == spec_bar_filled(width as int, max as int, received as int),
        bar.1 == spec_bar_total(width as int) - spec_bar_filled(width as int, max as int, received as int),
        bar.2 == (100 * (received as int)) / (max as int),
{
    let total: u16 = if width >= 6 {
        width - 6
    } else {
        0
    };
    assert((received as u64) * (width as u64) < 0x100000000) by (nonlinear_arith)
        requires
            received <= 0xFFFF,
            width <= 0xFFFF,
    ;
    let raw: u64 = ((received as u64) * (width as u64)) / (max as u64);
    let filled: u16 = if raw <= total as u64 {
        raw as u16
    } else {
        total
    };
    let percent: u32 = (100 * (received as u32)) / (max as u32);
    (filled, total - filled, percent)
}

} // verus!
