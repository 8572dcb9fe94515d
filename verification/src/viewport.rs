//! The viewport: the aggregate that owns the pixel buffer and exposes the
//! drawing and lifecycle API.

mod factory;
pub use factory::ViewportFactory;

use vstd::prelude::*;
use crate::error::ViewportError;
use crate::pixel::{default_pixel, Pixel};
use crate::raster::{
    line_points, span_pairs, voxel_between, walk_flat_triangle, walk_line, write_pixel,
    write_points, write_spans, lemma_write_pixel_len, lemma_voxel_index_in_range,
};
use crate::render::{Render, Resize};
use crate::util::{
    buffer_index, calculate_intersection, intersection, sort3, sort_vectors, to_pixel, to_voxel,
    COORD_BOUND, MAX_DIM,
};
use crate::{Position, Voxel};

verus! {

/// The buffer of a screen with `n` cells before anything was drawn on it.
pub open spec fn default_buffer(n: int) -> Seq<Pixel> {
    Seq::new(n as nat, |i: int| default_pixel())
}

/// Entity in charge of offering the functions to draw on the screen and of
/// the logic of the operation. It works on three-dimensional normalized
/// positions; the point drawn on the screen is the one relative to the
/// position in the `x` and `y` axes, so any point outside the normalized
/// range is not drawn. The `z` value works as a layer: of two draws on the
/// same screen cell only the one with the highest `z` is kept.
///
/// The viewport performs no projection; callers supply already-projected
/// coordinates.
pub struct Viewport<R> {
    /// Width of the screen, in pixels.
    pub width: usize,
    /// Height of the screen, in pixels.
    pub height: usize,
    /// Resolution of the `z` axis mapping; independent of width and height.
    pub depth: usize,
    /// The flat row-major pixel buffer, length exactly `width * height`.
    pub buffer: Vec<Pixel>,
    /// The injected presentation backend.
    pub renderer: R,
}

/// Allocates a buffer of `n` untouched cells.
fn make_buffer(n: usize) -> (v: Vec<Pixel>)
    ensures
        v@ == default_buffer(n as int),
{
    let v = vec![Pixel::default(); n];
    proof {
        assert(v@ =~= default_buffer(n as int));
    }
    v
}

impl<R> Viewport<R> {
    /// The structural invariant: strictly positive 32-bit sides and a
    /// buffer of exactly `width * height` cells. Constructors establish
    /// it and every method preserves it.
    pub open spec fn wf(&self) -> bool {
        &&& 0 < self.width <= MAX_DIM
        &&& 0 < self.height <= MAX_DIM
        &&& 0 < self.depth <= MAX_DIM
        &&& self.buffer@.len() == self.width as int * self.height as int
    }

    /// What every draw call leaves untouched: the sizes and the backend.
    pub open spec fn same_frame(&self, other: &Self) -> bool {
        &&& self.width == other.width
        &&& self.height == other.height
        &&& self.depth == other.depth
        &&& self.renderer == other.renderer
    }

    /// Builds a new viewport over the given backend, with an untouched
    /// buffer. All three sizes must be strictly positive.
    pub fn new(width: usize, height: usize, depth: usize, renderer: R) -> (r: Self)
        requires
            0 < width <= MAX_DIM,
            0 < height <= MAX_DIM,
            0 < depth <= MAX_DIM,
            width * height <= usize::MAX,
        ensures
            r.wf(),
            r.width == width,
            r.height == height,
            r.depth == depth,
            r.renderer == renderer,
            r.buffer@ == default_buffer(width as int * height as int),
    {
        let buffer = make_buffer(width * height);
        Viewport { width, height, depth, buffer, renderer }
    }

    /// Returns the width of the screen.
    pub fn width(&self) -> (w: usize)
        ensures
            w == self.width,
    {
        self.width
    }

    /// Returns the height of the screen.
    pub fn height(&self) -> (h: usize)
        ensures
            h == self.height,
    {
        self.height
    }

    /// Returns the depth of the screen.
    pub fn depth(&self) -> (d: usize)
        ensures
            d == self.depth,
    {
        self.depth
    }

    /// Returns the sizes of the viewport, for the pixel calculations.
    fn sizes(&self) -> (s: (usize, usize, usize))
        ensures
            s == (self.width, self.height, self.depth),
    {
        (self.width, self.height, self.depth)
    }

    /// Adds one voxel to the buffer under the depth rule: written only when
    /// it lands on the screen and its layer is at least the depth already
    /// in its cell; otherwise silently dropped. No error is raised for
    /// out-of-bounds or occluded writes.
    pub fn push_pixel(&mut self, v: Voxel, color: &[u8; 4])
        requires
            old(self).wf(),
        ensures
            final(self).wf(),
            final(self).same_frame(old(self)),
            final(self).buffer@ == write_pixel(
                old(self).buffer@,
                old(self).width as int,
                old(self).height as int,
                v,
                *color,
            ),
    {
        proof {
            lemma_write_pixel_len(
                self.buffer@,
                self.width as int,
                self.height as int,
                v,
                *color,
            );
        }
        if v.0 >= 0 && v.0 < self.width as i64 && v.1 >= 0 && v.1 < self.height as i64 {
            let col = v.0 as usize;
            let row = v.1 as usize;
            let len = self.buffer.len();
            proof {
                lemma_voxel_index_in_range(v, self.width as int, self.height as int);
            }
            let i = buffer_index(col, row, self.width);
            proof {
                assert(i < len);
            }
            if v.2 >= 0 && v.2 as u64 >= self.buffer[i].depth {
                self.buffer[i] = Pixel { color: *color, depth: v.2 as u64 };
            }
        }
    }

    /// Adds every lattice point of the walked line between two voxels to
    /// the buffer, each under the depth rule with its own interpolated
    /// layer.
    pub fn push_line(&mut self, start: Voxel, end: Voxel, color: &[u8; 4])
        requires
            old(self).wf(),
            -COORD_BOUND < start.0 < COORD_BOUND,
            -COORD_BOUND < start.1 < COORD_BOUND,
            -COORD_BOUND < start.2 < COORD_BOUND,
            -COORD_BOUND < end.0 < COORD_BOUND,
            -COORD_BOUND < end.1 < COORD_BOUND,
            -COORD_BOUND < end.2 < COORD_BOUND,
        ensures
            final(self).wf(),
            final(self).same_frame(old(self)),
            final(self).buffer@ == write_points(
                old(self).buffer@,
                old(self).width as int,
                old(self).height as int,
                line_points(start, end),
                *color,
            ),
    {
        let pts = walk_line(start, end);
        let mut k: usize = 0;
        while k < pts.len()
            invariant
                k <= pts@.len(),
                pts@ == line_points(start, end),
                self.wf(),
                self.same_frame(old(self)),
                self.buffer@ == write_points(
                    old(self).buffer@,
                    old(self).width as int,
                    old(self).height as int,
                    pts@.take(k as int),
                    *color,
                ),
            decreases pts@.len() - k,
        {
            let p = pts[k];
            self.push_pixel(p, color);
            proof {
                assert(pts@.take(k as int + 1).drop_last() =~= pts@.take(k as int));
                assert(pts@.take(k as int + 1).last() == pts@[k as int]);
            }
            k = k + 1;
        }
        proof {
            assert(pts@.take(pts@.len() as int) =~= pts@);
        }
    }

    /// Commands the drawing of a point. Maps the position to its voxel and
    /// hands it to the depth rule; a position outside the normalized range
    /// is silently discarded.
    pub fn draw_point(&mut self, position: Position, color: &[u8; 4])
        requires
            old(self).wf(),
        ensures
            final(self).wf(),
            final(self).same_frame(old(self)),
            final(self).buffer@ == write_pixel(
                old(self).buffer@,
                old(self).width as int,
                old(self).height as int,
                to_voxel(position, old(self).width as int, old(self).height as int, old(self).depth as int),
                *color,
            ),
    {
        let voxel = to_pixel(position, self.sizes());
        self.push_pixel(voxel, color);
    }

    /// Commands the drawing of a line between two positions: every lattice
    /// point of the walked line goes through the depth rule, carrying the
    /// walk's own interpolated layer.
    pub fn draw_line(&mut self, start: Position, end: Position, color: &[u8; 4])
        requires
            old(self).wf(),
        ensures
            final(self).wf(),
            final(self).same_frame(old(self)),
            final(self).buffer@ == write_points(
                old(self).buffer@,
                old(self).width as int,
                old(self).height as int,
                line_points(
                    to_voxel(start, old(self).width as int, old(self).height as int, old(self).depth as int),
                    to_voxel(end, old(self).width as int, old(self).height as int, old(self).depth as int),
                ),
                *color,
            ),
    {
        let s = to_pixel(start, self.sizes());
        let e = to_pixel(end, self.sizes());
        self.push_line(s, e, color);
    }

    /// Commands the drawing of the outline of a triangle: three walked
    /// lines, one per edge. Redundant writes at shared vertices are
    /// idempotent under the depth rule.
    pub fn draw_triangle(
        &mut self,
        point_a: Position,
        point_b: Position,
        point_c: Position,
        color: &[u8; 4],
    )
        requires
            old(self).wf(),
        ensures
            final(self).wf(),
            final(self).same_frame(old(self)),
            final(self).buffer@ == outline_writes(
                old(self).buffer@,
                old(self).width as int,
                old(self).height as int,
                old(self).depth as int,
                point_a,
                point_b,
                point_c,
                *color,
            ),
    {
        self.draw_line(point_a, point_b, color);
        self.draw_line(point_b, point_c, color);
        self.draw_line(point_c, point_a, color);
    }

    /// Uses the zip walk to push the spans that draw and fill a flat
    /// triangle: `side_a` and `side_b` share the flat row, `peak` is the
    /// remaining corner.
    fn fill_flat_triangle(&mut self, peak: Voxel, side_a: Voxel, side_b: Voxel, color: &[u8; 4])
        requires
            old(self).wf(),
            side_a.1 == side_b.1,
            -COORD_BOUND < peak.0 < COORD_BOUND,
            -COORD_BOUND < peak.1 < COORD_BOUND,
            -COORD_BOUND < peak.2 < COORD_BOUND,
            -COORD_BOUND < side_a.0 < COORD_BOUND,
            -COORD_BOUND < side_a.1 < COORD_BOUND,
            -COORD_BOUND < side_a.2 < COORD_BOUND,
            -COORD_BOUND < side_b.0 < COORD_BOUND,
            -COORD_BOUND < side_b.1 < COORD_BOUND,
            -COORD_BOUND < side_b.2 < COORD_BOUND,
        ensures
            final(self).wf(),
            final(self).same_frame(old(self)),
            final(self).buffer@ == write_spans(
                old(self).buffer@,
                old(self).width as int,
                old(self).height as int,
                span_pairs(peak, side_a, side_b),
                *color,
            ),
    {
        let pairs = walk_flat_triangle(peak, side_a, side_b);
        let mut k: usize = 0;
        while k < pairs.len()
            invariant
                k <= pairs@.len(),
                pairs@ == span_pairs(peak, side_a, side_b),
                forall|i: int| 0 <= i < pairs@.len()
                    ==> voxel_between((#[trigger] pairs@[i]).0, peak, side_a),
                forall|i: int| 0 <= i < pairs@.len()
                    ==> voxel_between((#[trigger] pairs@[i]).1, peak, side_b),
                -COORD_BOUND < peak.0 < COORD_BOUND,
                -COORD_BOUND < peak.1 < COORD_BOUND,
                -COORD_BOUND < peak.2 < COORD_BOUND,
                -COORD_BOUND < side_a.0 < COORD_BOUND,
                -COORD_BOUND < side_a.1 < COORD_BOUND,
                -COORD_BOUND < side_a.2 < COORD_BOUND,
                -COORD_BOUND < side_b.0 < COORD_BOUND,
                -COORD_BOUND < side_b.1 < COORD_BOUND,
                -COORD_BOUND < side_b.2 < COORD_BOUND,
                self.wf(),
                self.same_frame(old(self)),
                self.buffer@ == write_spans(
                    old(self).buffer@,
                    old(self).width as int,
                    old(self).height as int,
                    pairs@.take(k as int),
                    *color,
                ),
            decreases pairs@.len() - k,
        {
            let pair = pairs[k];
            self.push_line(pair.0, pair.1, color);
            proof {
                assert(pairs@.take(k as int + 1).drop_last() =~= pairs@.take(k as int));
                assert(pairs@.take(k as int + 1).last() == pairs@[k as int]);
            }
            k = k + 1;
        }
        proof {
            assert(pairs@.take(pairs@.len() as int) =~= pairs@);
        }
    }

    /// Commands the drawing and filling of a triangle: the corners are
    /// mapped and sorted by row, the triangle is split into flat ones at
    /// the middle row where needed, and each flat triangle is filled span
    /// by span. Degenerate triangles degrade to a line or a point and are
    /// accepted silently.
    pub fn fill_triangle(
        &mut self,
        point_a: Position,
        point_b: Position,
        point_c: Position,
        color: &[u8; 4],
    )
        requires
            old(self).wf(),
        ensures
            final(self).wf(),
            final(self).same_frame(old(self)),
            final(self).buffer@ == fill_writes(
                old(self).buffer@,
                old(self).width as int,
                old(self).height as int,
                old(self).depth as int,
                point_a,
                point_b,
                point_c,
                *color,
            ),
    {
        let va = to_pixel(point_a, self.sizes());
        let vb = to_pixel(point_b, self.sizes());
        let vc = to_pixel(point_c, self.sizes());

        let (top, mid, bot) = sort_vectors(va, vb, vc);
        if mid.1 == bot.1 {
            self.fill_flat_triangle(top, mid, bot, color);
        } else if mid.1 == top.1 {
            self.fill_flat_triangle(bot, top, mid, color);
        } else {
            let split = calculate_intersection(bot, mid, top);
            self.fill_flat_triangle(top, mid, split, color);
            self.fill_flat_triangle(bot, mid, split, color);
        }
    }

    /// Resets the buffer, clearing all its current content; the sizes, the
    /// depth and the backend are untouched.
    pub fn reset_buffer(&mut self)
        requires
            old(self).wf(),
        ensures
            final(self).wf(),
            final(self).same_frame(old(self)),
            final(self).buffer@ == default_buffer(
                old(self).width as int * old(self).height as int,
            ),
    {
        let n = self.buffer.len();
        self.buffer = make_buffer(n);
    }
}

impl<R: Resize> Viewport<R> {
    /// Changes the size of the rendered screen. Doing so resets the buffer,
    /// clearing the current content, and forwards the new size to the
    /// backend's resize hook. The depth is unaffected.
    pub fn resize(&mut self, width: usize, height: usize)
        requires
            old(self).wf(),
            0 < width <= MAX_DIM,
            0 < height <= MAX_DIM,
            width * height <= usize::MAX,
        ensures
            final(self).wf(),
            final(self).width == width,
            final(self).height == height,
            final(self).depth == old(self).depth,
            final(self).buffer@ == default_buffer(width as int * height as int),
    {
        self.width = width;
        self.height = height;
        self.buffer = make_buffer(width * height);
        self.renderer.resize(width, height);
    }
}

impl<R: Render> Viewport<R> {
    /// Renders the content of the buffer through the backend: a pure read
    /// of the buffer, which is not cleared afterwards; to clear it call
    /// [`Viewport::reset_buffer`]. Returns whatever the backend reports.
    pub fn render(&mut self) -> (result: Result<(), ViewportError>)
        requires
            old(self).wf(),
        ensures
            final(self).wf(),
            final(self).width == old(self).width,
            final(self).height == old(self).height,
            final(self).depth == old(self).depth,
            final(self).buffer@ == old(self).buffer@,
    {
        self.renderer.render(&self.buffer)
    }

    /// Asks the backend for an empty frame immediately, without touching
    /// the in-memory buffer: an optimal way to show a blank frame while
    /// keeping the current drawing.
    pub fn clear_frame(&mut self) -> (result: Result<(), ViewportError>)
        requires
            old(self).wf(),
        ensures
            final(self).wf(),
            final(self).width == old(self).width,
            final(self).height == old(self).height,
            final(self).depth == old(self).depth,
            final(self).buffer@ == old(self).buffer@,
    {
        self.renderer.clear()
    }
}

/// What drawing the outline of a triangle leaves in the buffer: the three
/// edges walked in order, `a` to `b` to `c` and back to `a`.
pub open spec fn outline_writes(
    buf: Seq<Pixel>,
    width: int,
    height: int,
    depth: int,
    a: Position,
    b: Position,
    c: Position,
    color: [u8; 4],
) -> Seq<Pixel> {
    let va = to_voxel(a, width, height, depth);
    let vb = to_voxel(b, width, height, depth);
    let vc = to_voxel(c, width, height, depth);
    write_points(
        write_points(
            write_points(buf, width, height, line_points(va, vb), color),
            width,
            height,
            line_points(vb, vc),
            color,
        ),
        width,
        height,
        line_points(vc, va),
        color,
    )
}

/// What drawing and filling a triangle leaves in the buffer: the corners
/// are mapped and sorted by row; a triangle that is already flat is filled
/// as one fan of spans, any other is split at the middle row and filled as
/// two.
pub open spec fn fill_writes(
    buf: Seq<Pixel>,
    width: int,
    height: int,
    depth: int,
    a: Position,
    b: Position,
    c: Position,
    color: [u8; 4],
) -> Seq<Pixel> {
    let sorted = sort3(
        to_voxel(a, width, height, depth),
        to_voxel(b, width, height, depth),
        to_voxel(c, width, height, depth),
    );
    let top = sorted.0;
    let mid = sorted.1;
    let bot = sorted.2;
    if mid.1 == bot.1 {
        write_spans(buf, width, height, span_pairs(top, mid, bot), color)
    } else if mid.1 == top.1 {
        write_spans(buf, width, height, span_pairs(bot, top, mid), color)
    } else {
        let split = intersection(bot, mid, top);
        write_spans(
            write_spans(buf, width, height, span_pairs(top, mid, split), color),
            width,
            height,
            span_pairs(bot, mid, split),
            color,
        )
    }
}

} // verus!
