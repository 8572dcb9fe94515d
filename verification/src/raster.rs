//! The rasterization model: what one depth-tested write, one walked line
//! and one filled fan of spans leave in the pixel buffer, together with the
//! trusted walkers of the line-drawing crates.

use vstd::prelude::*;
use crate::pixel::Pixel;
use crate::util::COORD_BOUND;
use crate::Voxel;

verus! {

/// The flat row-major index of voxel `v` on a screen `width` cells wide.
pub open spec fn voxel_index(v: Voxel, width: int) -> int {
    v.1 * width + v.0
}

/// Whether voxel `v` lands on the screen at all.
pub open spec fn voxel_on_screen(v: Voxel, width: int, height: int) -> bool {
    0 <= v.0 < width && 0 <= v.1 < height
}

/// An on-screen voxel indexes into the buffer.
pub proof fn lemma_voxel_index_in_range(v: Voxel, width: int, height: int)
    requires
        voxel_on_screen(v, width, height),
    ensures
        0 <= voxel_index(v, width) < width * height,
{
    assert(v.1 * width + v.0 < width * height && 0 <= v.1 * width + v.0) by (nonlinear_arith)
        requires 0 <= v.0 < width, 0 <= v.1 < height;
}

/// One depth-tested write: the single occlusion rule of the whole system.
/// The pixel is written only when it lands on the screen and its layer is
/// at least the depth already in its cell; equal depth overwrites (last
/// writer wins), and everything else is silently dropped. Colors are never
/// compared or blended.
pub open spec fn write_pixel(
    buf: Seq<Pixel>,
    width: int,
    height: int,
    v: Voxel,
    color: [u8; 4],
) -> Seq<Pixel> {
    if voxel_on_screen(v, width, height) && v.2 >= buf[voxel_index(v, width)].depth {
        buf.update(voxel_index(v, width), Pixel { color, depth: v.2 as u64 })
    } else {
        buf
    }
}

/// What writing a whole run of voxels with one color leaves in the buffer,
/// first voxel first.
pub open spec fn write_points(
    buf: Seq<Pixel>,
    width: int,
    height: int,
    pts: Seq<Voxel>,
    color: [u8; 4],
) -> Seq<Pixel>
    decreases pts.len(),
{
    if pts.len() == 0 {
        buf
    } else {
        write_pixel(write_points(buf, width, height, pts.drop_last(), color), width, height, pts.last(), color)
    }
}

/// A depth-tested write keeps the buffer's length.
pub proof fn lemma_write_pixel_len(buf: Seq<Pixel>, width: int, height: int, v: Voxel, color: [u8; 4])
    requires
        buf.len() == width * height,
    ensures
        write_pixel(buf, width, height, v, color).len() == buf.len(),
{
    if voxel_on_screen(v, width, height) {
        lemma_voxel_index_in_range(v, width, height);
    }
}

/// What filling a fan of spans leaves in the buffer: each pair of boundary
/// points is joined by its own walked line, first pair first.
pub open spec fn write_spans(
    buf: Seq<Pixel>,
    width: int,
    height: int,
    pairs: Seq<(Voxel, Voxel)>,
    color: [u8; 4],
) -> Seq<Pixel>
    decreases pairs.len(),
{
    if pairs.len() == 0 {
        buf
    } else {
        write_points(
            write_spans(buf, width, height, pairs.drop_last(), color),
            width,
            height,
            line_points(pairs.last().0, pairs.last().1),
            color,
        )
    }
}

pub uninterp spec fn line_points(start: Voxel, end: Voxel) -> Seq<Voxel>;

/// Relies on line_drawing's three-dimensional Bresenham walk: the lattice
/// points it visits between two voxels depend on the endpoints alone, and
/// the walk includes both endpoints, the start first and the end last.
#[verifier::external_body]
pub(crate) fn walk_line(start: Voxel, end: Voxel) -> (r: Vec<Voxel>)
    requires
        -COORD_BOUND < start.0 < COORD_BOUND,
        -COORD_BOUND < start.1 < COORD_BOUND,
        -COORD_BOUND < start.2 < COORD_BOUND,
        -COORD_BOUND < end.0 < COORD_BOUND,
        -COORD_BOUND < end.1 < COORD_BOUND,
        -COORD_BOUND < end.2 < COORD_BOUND,
    ensures
        r@ == line_points(start, end),
        r@.len() >= 1,
        r@[0] == start,
        r@[r@.len() - 1] == end,
{
    line_drawing::Bresenham3d::new(start, end).collect()
}

pub uninterp spec fn span_pairs(peak: Voxel, side_a: Voxel, side_b: Voxel) -> Seq<(Voxel, Voxel)>;

/// Whether `p` lies in the axis-aligned box spanned by `a` and `b`.
pub open spec fn voxel_between(p: Voxel, a: Voxel, b: Voxel) -> bool {
    &&& (a.0 <= p.0 <= b.0 || b.0 <= p.0 <= a.0)
    &&& (a.1 <= p.1 <= b.1 || b.1 <= p.1 <= a.1)
    &&& (a.2 <= p.2 <= b.2 || b.2 <= p.2 <= a.2)
}

/// Relies on bresenham_zip's three-dimensional zip along the Y axis: the
/// pairs of boundary points it yields depend on the three corners alone;
/// building it succeeds whenever the two base corners share a row; every
/// yielded pair shares its row value; and each yielded point lies on the
/// Bresenham walk from the peak to its side's corner, which steps each
/// axis monotonically and so stays inside the corners' box.
#[verifier::external_body]
pub(crate) fn walk_flat_triangle(peak: Voxel, side_a: Voxel, side_b: Voxel) -> (r: Vec<(Voxel, Voxel)>)
    requires
        side_a.1 == side_b.1,
        -COORD_BOUND < peak.0 < COORD_BOUND,
        -COORD_BOUND < peak.1 < COORD_BOUND,
        -COORD_BOUND < peak.2 < COORD_BOUND,
        -COORD_BOUND < side_a.0 < COORD_BOUND,
        -COORD_BOUND < side_a.1 < COORD_BOUND,
        -COORD_BOUND < side_a.2 < COORD_BOUND,
        -COORD_BOUND < side_b.0 < COORD_BOUND,
        -COORD_BOUND < side_b.1 < COORD_BOUND,
        -COORD_BOUND < side_b.2 < COORD_BOUND,
    ensures
        r@ == span_pairs(peak, side_a, side_b),
        forall|i: int| 0 <= i < r@.len() ==> (#[trigger] r@[i]).0.1 == r@[i].1.1,
        forall|i: int| 0 <= i < r@.len() ==> voxel_between((#[trigger] r@[i]).0, peak, side_a),
        forall|i: int| 0 <= i < r@.len() ==> voxel_between((#[trigger] r@[i]).1, peak, side_b),
{
    let mut pairs: Vec<(Voxel, Voxel)> = Vec::new();
    let zip = bresenham_zip::zip_3d::Builder3d::new()
        .axis(bresenham_zip::Axis::Y)
        .start_point(peak)
        .first_ending_point(side_a)
        .second_ending_point(side_b)
        .build();
    if let Ok(zip) = zip {
        for pair in zip {
            pairs.push(pair);
        }
    }
    pairs
}

} // verus!
