//! The laws of the drawing model that hold across calls: what several
//! functions of the library guarantee together.

use vstd::prelude::*;
use crate::pixel::Pixel;
use crate::raster::{
    lemma_voxel_index_in_range, voxel_index, voxel_on_screen, write_pixel,
};
use crate::util::{
    lemma_map_coord_bound, lemma_map_coord_high, lemma_map_coord_low, lemma_map_coord_monotonic,
    to_voxel, MAX_DIM, UNIT,
};
use crate::viewport::{default_buffer, Viewport};
use crate::{Position, Voxel};

verus! {

/// A position with any coordinate below `-1.0`, or with its `x` or `y`
/// coordinate at or above `1.0`, is silently discarded: drawing it leaves
/// the buffer unchanged. (A `z` at or above `1.0` maps past every layer and
/// still wins its cell, so only the lower side of the `z` range discards.)
pub proof fn lemma_out_of_range_draw_is_noop(
    buf: Seq<Pixel>,
    width: int,
    height: int,
    depth: int,
    p: Position,
    color: [u8; 4],
)
    requires
        1 <= width <= MAX_DIM as int,
        1 <= height <= MAX_DIM as int,
        1 <= depth <= MAX_DIM as int,
        p.0 < -(UNIT as int) || p.0 >= UNIT as int || p.1 < -(UNIT as int) || p.1 >= UNIT as int
            || p.2 < -(UNIT as int),
    ensures
        write_pixel(buf, width, height, to_voxel(p, width, height, depth), color) == buf,
{
    let v = to_voxel(p, width, height, depth);
    lemma_map_coord_bound(p.0 as int, width);
    lemma_map_coord_bound(p.1 as int, height);
    lemma_map_coord_bound(p.2 as int, depth);
    if p.0 < -(UNIT as int) {
        lemma_map_coord_low(p.0 as int, width);
        assert(v.0 < 0);
    } else if p.0 >= UNIT as int {
        lemma_map_coord_high(p.0 as int, width);
        assert(v.0 >= width);
    } else if p.1 < -(UNIT as int) {
        lemma_map_coord_low(p.1 as int, height);
        assert(v.1 < 0);
    } else if p.1 >= UNIT as int {
        lemma_map_coord_high(p.1 as int, height);
        assert(v.1 >= height);
    } else {
        lemma_map_coord_low(p.2 as int, depth);
        assert(v.2 < 0);
    }
}

/// Depth monotonicity: drawing the same screen cell twice with layers
/// `z1 < z2`, in either order, always leaves the buffer exactly as if only
/// the higher layer had been drawn.
pub proof fn lemma_depth_monotonic(
    buf: Seq<Pixel>,
    width: int,
    height: int,
    x: i64,
    y: i64,
    z1: i64,
    z2: i64,
    c1: [u8; 4],
    c2: [u8; 4],
)
    requires
        buf.len() == width * height,
        z1 < z2,
    ensures
        write_pixel(write_pixel(buf, width, height, (x, y, z1), c1), width, height, (x, y, z2), c2)
            == write_pixel(buf, width, height, (x, y, z2), c2),
        write_pixel(write_pixel(buf, width, height, (x, y, z2), c2), width, height, (x, y, z1), c1)
            == write_pixel(buf, width, height, (x, y, z2), c2),
{
    let v1: Voxel = (x, y, z1);
    let v2: Voxel = (x, y, z2);
    if voxel_on_screen(v1, width, height) {
        let i = voxel_index(v1, width);
        lemma_voxel_index_in_range(v1, width, height);
        if z1 >= buf[i].depth {
            let once = buf.update(i, Pixel { color: c1, depth: z1 as u64 });
            assert(once[i].depth == z1 as u64);
            assert(once.update(i, Pixel { color: c2, depth: z2 as u64 })
                =~= buf.update(i, Pixel { color: c2, depth: z2 as u64 }));
        }
        if z2 >= buf[i].depth {
            let once = buf.update(i, Pixel { color: c2, depth: z2 as u64 });
            assert(once[i].depth == z2 as u64);
        }
    }
}

/// After `reset_buffer`, any single point draw reproduces exactly the
/// buffer that a fresh viewport of the same sizes holds after the same
/// draw: both start from the default buffer, and the draw's effect is a
/// function of the sizes and the buffer alone.
pub proof fn lemma_reset_matches_fresh<R1, R2>(
    reset: Viewport<R1>,
    fresh: Viewport<R2>,
    p: Position,
    color: [u8; 4],
)
    requires
        reset.wf(),
        fresh.wf(),
        reset.width == fresh.width,
        reset.height == fresh.height,
        reset.depth == fresh.depth,
        reset.buffer@ == default_buffer(reset.width as int * reset.height as int),
        fresh.buffer@ == default_buffer(fresh.width as int * fresh.height as int),
    ensures
        write_pixel(
            reset.buffer@,
            reset.width as int,
            reset.height as int,
            to_voxel(p, reset.width as int, reset.height as int, reset.depth as int),
            color,
        ) == write_pixel(
            fresh.buffer@,
            fresh.width as int,
            fresh.height as int,
            to_voxel(p, fresh.width as int, fresh.height as int, fresh.depth as int),
            color,
        ),
{
}

/// The position-to-voxel map is deterministic and monotonic: it is a pure
/// function of the position and the sizes, and a position no further east,
/// south or near never maps past one that is, on any axis.
pub proof fn lemma_to_voxel_monotonic(
    p1: Position,
    p2: Position,
    width: int,
    height: int,
    depth: int,
)
    requires
        0 <= width <= MAX_DIM as int,
        0 <= height <= MAX_DIM as int,
        0 <= depth <= MAX_DIM as int,
        p1.0 <= p2.0,
        p1.1 <= p2.1,
        p1.2 <= p2.2,
    ensures
        to_voxel(p1, width, height, depth).0 <= to_voxel(p2, width, height, depth).0,
        to_voxel(p1, width, height, depth).1 <= to_voxel(p2, width, height, depth).1,
        to_voxel(p1, width, height, depth).2 <= to_voxel(p2, width, height, depth).2,
{
    lemma_map_coord_bound(p1.0 as int, width);
    lemma_map_coord_bound(p1.1 as int, height);
    lemma_map_coord_bound(p1.2 as int, depth);
    lemma_map_coord_bound(p2.0 as int, width);
    lemma_map_coord_bound(p2.1 as int, height);
    lemma_map_coord_bound(p2.2 as int, depth);
    lemma_map_coord_monotonic(p1.0 as int, p2.0 as int, width);
    lemma_map_coord_monotonic(p1.1 as int, p2.1 as int, height);
    lemma_map_coord_monotonic(p1.2 as int, p2.2 as int, depth);
}

} // verus!
