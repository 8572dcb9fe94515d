//! A CPU-side rasterization core: normalized 3D drawing commands (points,
//! lines, triangles) become depth-tested writes into a flat 2D pixel buffer,
//! which a presentation backend later consumes.
//!
//! Coordinates are given in a canonical cube: each axis runs over `[-1, 1]`,
//! held here in fixed point as millionths of the unit (see [`util::UNIT`]).
//! The `x` axis runs west to east, `y` north to south, and `z` far to near;
//! of two draws on the same screen cell the one with the higher `z` layer
//! wins.

use vstd::prelude::*;

pub mod error;
pub mod laws;
pub mod pixel;
pub mod raster;
pub mod render;
pub mod util;
pub mod viewport;

verus! {

/// A normalized coordinate triple `(x, y, z)`, each axis in fixed point:
/// the value `1_000_000` stands for `1.0`. Values are expected in
/// `[-1.0, 1.0]`; anything outside maps outside the buffer and is
/// silently discarded by the bounds check when drawn.
pub type Position = (i32, i32, i32);

/// An integer pixel-space coordinate triple `(col, row, layer)`: the
/// rasterized form of a [`Position`]. Signed, because line walking may
/// momentarily leave `[0, width)` before being bounds-checked.
pub type Voxel = (i64, i64, i64);

} // verus!
