//! Where one changed pixel lands in the cached buffers.

use crate::error::ConsistencyError;
use crate::messages::Pixel;
use crate::time::{elapsed_secs, UnixTime};
use vstd::prelude::*;

verus! {

/// What one changed pixel writes: the index into every per-pixel buffer, the
/// colour for the colour buffer, and the age for the timestamp buffer where
/// one is cached.
#[derive(Debug, Clone, Copy, PartialEq, Eq)]
pub struct PixelWrite {
    pub index: usize,
    pub color: u8,
    pub age: Option<u32>,
}

/// Index of the pixel at column `x` of row `y` on a canvas `width` wide: rows
/// lie one after the other.
pub open spec fn linear_index(x: usize, y: usize, width: usize) -> int {
    y * width + x
}

/// Whether `(x, y)` is a pixel of a canvas of `width` by `height`.
pub open spec fn on_canvas(x: usize, y: usize, width: usize, height: usize) -> bool {
    x < width && y < height
}

/// What a changed pixel writes, or why it cannot be applied. The checks come in
/// this order: the pixel lies on the canvas (and its index fits the machine
/// word); where a timestamp buffer is cached, the start of the canvas is known;
/// and the time since then is a count of seconds that fits 32 bits.
pub open spec fn planned_write(
    width: usize,
    height: usize,
    pixel: Pixel,
    timestamps_cached: bool,
    epoch: Option<UnixTime>,
    now: UnixTime,
) -> Result<PixelWrite, ConsistencyError> {
    if !on_canvas(pixel.x, pixel.y, width, height) || linear_index(pixel.x, pixel.y, width)
        > usize::MAX {
        Err(ConsistencyError::PixelOutOfRange { x: pixel.x, y: pixel.y })
    } else if !timestamps_cached {
        Ok(
            PixelWrite {
                index: linear_index(pixel.x, pixel.y, width) as usize,
                color: pixel.color,
                age: None,
            },
        )
    } else {
        match epoch {
            None => Err(ConsistencyError::MissingEpoch),
            Some(start) => match elapsed_secs(now, start) {
                None => Err(ConsistencyError::UnrepresentableAge),
                Some(age) => Ok(
                    PixelWrite {
                        index: linear_index(pixel.x, pixel.y, width) as usize,
                        color: pixel.color,
                        age: Some(age),
                    },
                ),
            },
        }
    }
}

/// Decides what a changed pixel writes. Nothing is written here: a pixel that
/// cannot be applied changes no buffer.
pub fn plan_update(
    width: usize,
    height: usize,
    pixel: &Pixel,
    timestamps_cached: bool,
    epoch: Option<UnixTime>,
    now: UnixTime,
) -> (r: Result<PixelWrite, ConsistencyError>)
    ensures
        r == planned_write(width, height, *pixel, timestamps_cached, epoch, now),
{
    let out_of_range = ConsistencyError::PixelOutOfRange { x: pixel.x, y: pixel.y };
    if pixel.x >= width || pixel.y >= height {
        return Err(out_of_range);
    }
    let index: usize = match pixel.y.checked_mul(width) {
        Some(row) => match row.checked_add(pixel.x) {
            Some(index) => index,
            None => {
                return Err(out_of_range);
            },
        },
        None => {
            return Err(out_of_range);
        },
    };
    if !timestamps_cached {
        return Ok(PixelWrite { index, color: pixel.color, age: None });
    }
    match epoch {
        None => Err(ConsistencyError::MissingEpoch),
        Some(start) => match now.whole_secs_since(&start) {
            None => Err(ConsistencyError::UnrepresentableAge),
            Some(age) => Ok(PixelWrite { index, color: pixel.color, age: Some(age) }),
        },
    }
}

/// A pixel on the canvas has an index below the number of pixels.
pub proof fn lemma_index_on_canvas(x: usize, y: usize, width: usize, height: usize)
    requires
        on_canvas(x, y, width, height),
    ensures
        0 <= linear_index(x, y, width) < width * height,
{
    assert(y * width + x < width * height) by (nonlinear_arith)
        requires
            x < width,
            y < height,
    ;
    assert(y * width >= 0) by (nonlinear_arith);
}

/// Two pixels of the canvas with one index are one pixel: a write at the
/// index of one pixel touches the entry of no other.
pub proof fn lemma_index_injective(x1: usize, y1: usize, x2: usize, y2: usize, width: usize)
    requires
        x1 < width,
        x2 < width,
        linear_index(x1, y1, width) == linear_index(x2, y2, width),
    ensures
        x1 == x2,
        y1 == y2,
{
    assert(y1 == y2) by (nonlinear_arith)
        requires
            x1 < width,
            x2 < width,
            y1 * width + x1 == y2 * width + x2,
    ;
    assert(y1 * width == y2 * width);
}

} // verus!
