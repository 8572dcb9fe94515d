//! Pure helpers converting normalized positions into pixel space.

use vstd::prelude::*;
use vstd::arithmetic::div_mod::{lemma_div_is_ordered, lemma_div_multiples_vanish, lemma_div_of0, lemma_div_pos_is_pos};
use vstd::arithmetic::mul::{lemma_mul_inequality, lemma_mul_nonnegative};
use crate::{Position, Voxel};

verus! {

/// Fixed-point scale of normalized coordinates: this many fixed-point steps
/// stand for `1.0`.
pub const UNIT: i32 = 1_000_000;

/// Largest screen dimension the mapper accepts: each side of a viewport
/// fits in 32 bits.
pub const MAX_DIM: usize = 0xFFFF_FFFF;

/// Every voxel coordinate the mapper produces lies strictly within this
/// bound, whatever the position was.
pub const COORD_BOUND: i64 = 0x1_0000_0000_0000;

/// The linear map of one normalized axis value `c` onto a screen axis of
/// `size` cells: the floor of `(c + 1.0) * 0.5 * size`, taken in fixed
/// point. Truncation, not rounding, is the defined semantics.
pub open spec fn map_coord(c: int, size: int) -> int {
    ((c + UNIT as int) * size) / (2 * UNIT as int)
}

/// The pixel-space image of a whole position on a `(width, height, depth)`
/// screen.
pub open spec fn to_voxel(p: Position, width: int, height: int, depth: int) -> Voxel {
    (map_coord(p.0 as int, width) as i64,
     map_coord(p.1 as int, height) as i64,
     map_coord(p.2 as int, depth) as i64)
}

/// The mapped coordinate never leaves `(-COORD_BOUND, COORD_BOUND)`, for any
/// representable axis value and any accepted screen size.
pub proof fn lemma_map_coord_bound(c: int, size: int)
    requires
        i32::MIN <= c <= i32::MAX,
        0 <= size <= MAX_DIM as int,
    ensures
        -(COORD_BOUND as int) < map_coord(c, size) < COORD_BOUND as int,
{
    let num = (c + UNIT as int) * size;
    assert((c + 1000000int) * size <= 0x8010_0000int * 0x1_0000_0000) by (nonlinear_arith)
        requires -0x8000_0000int <= c <= 0x7FFF_FFFFint, 0 <= size <= 0xFFFF_FFFFint;
    assert((c + 1000000int) * size >= -(0x8010_0000int * 0x1_0000_0000)) by (nonlinear_arith)
        requires -0x8000_0000int <= c <= 0x7FFF_FFFFint, 0 <= size <= 0xFFFF_FFFFint;
    assert(num == (c + 1000000int) * size);
    lemma_div_is_ordered(num, 0x8010_0000int * 0x1_0000_0000, 2 * UNIT as int);
    lemma_div_is_ordered(-(0x8010_0000int * 0x1_0000_0000), num, 2 * UNIT as int);
}

/// Monotonicity of the mapping along one axis: a coordinate no further east
/// (or south, or near) never maps past one that is.
pub proof fn lemma_map_coord_monotonic(c1: int, c2: int, size: int)
    requires
        c1 <= c2,
        size >= 0,
    ensures
        map_coord(c1, size) <= map_coord(c2, size),
{
    lemma_mul_inequality(c1 + UNIT as int, c2 + UNIT as int, size);
    lemma_div_is_ordered((c1 + UNIT as int) * size, (c2 + UNIT as int) * size, 2 * UNIT as int);
}

/// A coordinate below the normalized range maps below the screen.
pub proof fn lemma_map_coord_low(c: int, size: int)
    requires
        c < -(UNIT as int),
        size >= 1,
    ensures
        map_coord(c, size) < 0,
{
    assert((c + 1000000int) * size <= -1) by (nonlinear_arith)
        requires c + 1000000int <= -1, size >= 1;
    assert((c + UNIT as int) * size == (c + 1000000int) * size);
    lemma_div_is_ordered((c + UNIT as int) * size, -1, 2 * UNIT as int);
}

/// A coordinate at or past the top of the normalized range maps at or past
/// the end of the screen; exactly `1.0` maps to `size` itself, one past the
/// last valid index.
pub proof fn lemma_map_coord_high(c: int, size: int)
    requires
        c >= UNIT as int,
        size >= 0,
    ensures
        map_coord(c, size) >= size,
{
    lemma_mul_inequality(2 * UNIT as int, c + UNIT as int, size);
    lemma_div_is_ordered((2 * UNIT as int) * size, (c + UNIT as int) * size, 2 * UNIT as int);
    lemma_div_multiples_vanish(size, 2 * UNIT as int);
}

/// Maps one axis value: the exact integer floor of `(c + 1.0) * 0.5 * size`.
fn map_axis(c: i32, size: usize) -> (r: i64)
    requires
        size <= MAX_DIM,
    ensures
        r as int == map_coord(c as int, size as int),
        -COORD_BOUND < r < COORD_BOUND,
{
    proof {
        lemma_map_coord_bound(c as int, size as int);
        assert((c as i128 + UNIT as i128) * (size as i128) == (c as int + UNIT as int) * (size as int))
            by (nonlinear_arith);
    }
    let num: i128 = (c as i128 + UNIT as i128) * (size as i128);
    let q: i128 = match num.checked_div_euclid(2 * UNIT as i128) {
        Some(v) => v,
        None => 0,
    };
    q as i64
}

/// Converts the normalized position into the pixel equivalent in the given
/// `(width, height, depth)` screen.
pub fn to_pixel(position: Position, sizes: (usize, usize, usize)) -> (v: Voxel)
    requires
        sizes.0 <= MAX_DIM,
        sizes.1 <= MAX_DIM,
        sizes.2 <= MAX_DIM,
    ensures
        v == to_voxel(position, sizes.0 as int, sizes.1 as int, sizes.2 as int),
        -COORD_BOUND < v.0 < COORD_BOUND,
        -COORD_BOUND < v.1 < COORD_BOUND,
        -COORD_BOUND < v.2 < COORD_BOUND,
{
    (map_axis(position.0, sizes.0), map_axis(position.1, sizes.1), map_axis(position.2, sizes.2))
}

/// Widens an unsigned voxel losslessly, so that line walking may leave the
/// screen bounds before being bounds-checked.
pub fn as_signed(v: (usize, usize, usize)) -> (r: (isize, isize, isize))
    requires
        v.0 <= isize::MAX as usize,
        v.1 <= isize::MAX as usize,
        v.2 <= isize::MAX as usize,
    ensures
        r.0 as int == v.0 as int,
        r.1 as int == v.1 as int,
        r.2 as int == v.2 as int,
{
    (v.0 as isize, v.1 as isize, v.2 as isize)
}

/// The three voxels of a triangle ordered by row (screen Y), smallest
/// first; ties keep the earlier argument first, a deterministic tie-break.
pub open spec fn sort3(a: Voxel, b: Voxel, c: Voxel) -> (Voxel, Voxel, Voxel) {
    if a.1 <= b.1 {
        if b.1 <= c.1 {
            (a, b, c)
        } else if a.1 <= c.1 {
            (a, c, b)
        } else {
            (c, a, b)
        }
    } else {
        if a.1 <= c.1 {
            (b, a, c)
        } else if b.1 <= c.1 {
            (b, c, a)
        } else {
            (c, b, a)
        }
    }
}

/// Sorts the three corners of a triangle by their row, topmost first.
pub fn sort_vectors(a: Voxel, b: Voxel, c: Voxel) -> (r: (Voxel, Voxel, Voxel))
    ensures
        r == sort3(a, b, c),
        (r.0).1 <= (r.1).1 <= (r.2).1,
        r.0 == a || r.0 == b || r.0 == c,
        r.1 == a || r.1 == b || r.1 == c,
        r.2 == a || r.2 == b || r.2 == c,
{
    if a.1 <= b.1 {
        if b.1 <= c.1 {
            (a, b, c)
        } else if a.1 <= c.1 {
            (a, c, b)
        } else {
            (c, a, b)
        }
    } else {
        if a.1 <= c.1 {
            (b, a, c)
        } else if b.1 <= c.1 {
            (b, c, a)
        } else {
            (c, b, a)
        }
    }
}

/// The point where the long edge `top -> bot` of a general triangle
/// crosses the row of `mid`: linear interpolation, each axis rounded
/// toward negative infinity.
pub open spec fn intersection(bot: Voxel, mid: Voxel, top: Voxel) -> Voxel {
    ((top.0 + (mid.1 - top.1) * (bot.0 - top.0) / (bot.1 - top.1)) as i64,
     mid.1,
     (top.2 + (mid.1 - top.1) * (bot.2 - top.2) / (bot.1 - top.1)) as i64)
}

/// An interpolated offset `(num * delta) / dy` with `0 <= num <= dy` stays
/// between zero and the full offset `delta`.
pub proof fn lemma_interp_bounded(num: int, delta: int, dy: int)
    requires
        0 <= num <= dy,
        0 < dy,
    ensures
        delta >= 0 ==> 0 <= (num * delta) / dy <= delta,
        delta < 0 ==> delta <= (num * delta) / dy <= 0,
{
    if delta >= 0 {
        lemma_mul_nonnegative(num, delta);
        lemma_div_pos_is_pos(num * delta, dy);
        lemma_mul_inequality(num, dy, delta);
        lemma_div_is_ordered(num * delta, dy * delta, dy);
        lemma_div_multiples_vanish(delta, dy);
    } else {
        assert(num * (-delta) == -(num * delta)) by (nonlinear_arith);
        assert(dy * (-delta) == -(dy * delta)) by (nonlinear_arith);
        lemma_mul_inequality(num, dy, -delta);
        lemma_div_is_ordered(dy * delta, num * delta, dy);
        lemma_div_multiples_vanish(delta, dy);
        assert(num * delta <= 0) by (nonlinear_arith)
            requires num >= 0, delta < 0;
        lemma_div_is_ordered(num * delta, 0, dy);
        lemma_div_of0(dy);
    }
}

/// Computes where the long edge of a general triangle crosses the middle
/// row, so that the triangle can be split into two flat ones.
pub fn calculate_intersection(bot: Voxel, mid: Voxel, top: Voxel) -> (r: Voxel)
    requires
        top.1 < mid.1 < bot.1,
        -COORD_BOUND < top.0 < COORD_BOUND,
        -COORD_BOUND < top.1 < COORD_BOUND,
        -COORD_BOUND < top.2 < COORD_BOUND,
        -COORD_BOUND < mid.1 < COORD_BOUND,
        -COORD_BOUND < bot.0 < COORD_BOUND,
        -COORD_BOUND < bot.1 < COORD_BOUND,
        -COORD_BOUND < bot.2 < COORD_BOUND,
    ensures
        r == intersection(bot, mid, top),
        -COORD_BOUND < r.0 < COORD_BOUND,
        r.1 == mid.1,
        -COORD_BOUND < r.2 < COORD_BOUND,
{
    let dy: i64 = bot.1 - top.1;
    let num: i64 = mid.1 - top.1;
    let dx: i64 = bot.0 - top.0;
    let dz: i64 = bot.2 - top.2;
    proof {
        lemma_interp_bounded(num as int, dx as int, dy as int);
        lemma_interp_bounded(num as int, dz as int, dy as int);
        assert(-0x4_0000_0000_0000_0000_0000_0000int <= (num as int) * (dx as int)
            <= 0x4_0000_0000_0000_0000_0000_0000int) by (nonlinear_arith)
            requires 0 <= num as int <= 0x2_0000_0000_0000int, -0x2_0000_0000_0000int <= dx as int <= 0x2_0000_0000_0000int;
        assert(-0x4_0000_0000_0000_0000_0000_0000int <= (num as int) * (dz as int)
            <= 0x4_0000_0000_0000_0000_0000_0000int) by (nonlinear_arith)
            requires 0 <= num as int <= 0x2_0000_0000_0000int, -0x2_0000_0000_0000int <= dz as int <= 0x2_0000_0000_0000int;
    }
    let qx: i128 = match (num as i128 * dx as i128).checked_div_euclid(dy as i128) {
        Some(v) => v,
        None => 0,
    };
    let qz: i128 = match (num as i128 * dz as i128).checked_div_euclid(dy as i128) {
        Some(v) => v,
        None => 0,
    };
    (top.0 + qx as i64, mid.1, top.2 + qz as i64)
}

/// The flat row-major index of the screen cell in column `w` of row `h` on
/// a screen `width` cells wide.
pub fn buffer_index(w: usize, h: usize, width: usize) -> (i: usize)
    requires
        h * width + w <= usize::MAX,
    ensures
        i as int == h as int * width as int + w as int,
{
    h * width + w
}

} // verus!
