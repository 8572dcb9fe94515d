//! The entity held in each cell of the drawing buffer.

use vstd::prelude::*;

verus! {

/// One cell of the pixel buffer: the color that currently wins the cell and
/// the depth (layer) it was drawn at.
#[derive(Clone, Copy, Debug, PartialEq, Eq)]
pub struct Pixel {
    /// RGBA bytes of the winning draw.
    pub color: [u8; 4],
    /// Layer of the winning draw; the minimum value stands for "nothing
    /// drawn yet".
    pub depth: u64,
}

/// The empty cell: black, fully transparent, at the lowest depth.
pub open spec fn default_pixel() -> Pixel {
    Pixel { color: [0u8, 0u8, 0u8, 0u8], depth: 0u64 }
}

impl Pixel {
    /// Builds a pixel from a 4-byte RGBA slice and a depth.
    pub fn new(color: &[u8], depth: u64) -> (result: Pixel)
        requires
            color@.len() == 4,
        ensures
            result.color@ == color@,
            result.depth == depth,
    {
        let copy: [u8; 4] = [color[0], color[1], color[2], color[3]];
        proof {
            assert(copy@ =~= color@);
        }
        Pixel { color: copy, depth }
    }
}

impl Default for Pixel {
    /// The empty cell, as the buffer holds it before any draw.
    fn default() -> (result: Pixel)
        ensures
            result == default_pixel(),
    {
        Pixel { color: [0u8, 0u8, 0u8, 0u8], depth: 0u64 }
    }
}

} // verus!
