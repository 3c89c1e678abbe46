//! Run parameters: canvas size, frame count, cell count and output path,
//! validated once before any frame is computed.

use vstd::prelude::*;

verus! {

/// Why a set of run parameters was rejected.
#[derive(Clone, Copy, PartialEq, Eq, Structural, Debug)]
pub enum ArgsError {
    ZeroWidth,
    ZeroHeight,
    ZeroFrames,
}

/// Validated run parameters.  `num_cells` may be zero: a field with no
/// feature points degrades to a uniform frame rather than failing.
#[derive(Debug)]
pub struct Args {
    pub width: u16,
    pub height: u16,
    pub frames: u16,
    pub num_cells: usize,
    pub out: String,
}

impl Args {
    pub open spec fn wf(self) -> bool {
        self.width >= 1 && self.height >= 1 && self.frames >= 1
    }

    /// Takes the raw values handed in from outside and validates them: the
    /// canvas must have both dimensions and the animation at least one
    /// frame, each checked in that order.
    pub fn read(width: u16, height: u16, frames: u16, num_cells: usize, out: String) -> (r: Result<
        Args,
        ArgsError,
    >)
        ensures
            match r {
                Ok(a) => {
                    &&& width >= 1 && height >= 1 && frames >= 1
                    &&& a.width == width
                    &&& a.height == height
                    &&& a.frames == frames
                    &&& a.num_cells == num_cells
                    &&& a.out == out
                    &&& a.wf()
                },
                Err(e) => {
                    &&& (e == ArgsError::ZeroWidth <==> width == 0)
                    &&& (e == ArgsError::ZeroHeight <==> width >= 1 && height == 0)
                    &&& (e == ArgsError::ZeroFrames <==> width >= 1 && height >= 1 && frames == 0)
                },
            },
            r is Err <==> width == 0 || height == 0 || frames == 0,
    {
        if width == 0 {
            Err(ArgsError::ZeroWidth)
        } else if height == 0 {
            Err(ArgsError::ZeroHeight)
        } else if frames == 0 {
            Err(ArgsError::ZeroFrames)
        } else {
            Ok(Args { width, height, frames, num_cells, out })
        }
    }
}

} // verus!
