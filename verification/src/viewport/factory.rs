//! The factory that hands out ready viewports.

use vstd::prelude::*;
use crate::pixel::Pixel;
use crate::render::MockRenderer;
use crate::util::MAX_DIM;
use crate::viewport::{default_buffer, Viewport};

verus! {

/// Factory to build the viewports for the different window backends. The
/// backends that present to a real surface live outside this crate; here
/// it offers the backend that presents nowhere, for tests.
pub struct ViewportFactory;

impl ViewportFactory {
    /// Returns a viewport over a [`MockRenderer`], which records calls and
    /// presents nowhere.
    pub fn test(width: usize, height: usize, depth: usize) -> (r: Viewport<MockRenderer>)
        requires
            0 < width <= MAX_DIM,
            0 < height <= MAX_DIM,
            0 < depth <= MAX_DIM,
            width * height <= usize::MAX,
        ensures
            r.wf(),
            r.width == width,
            r.height == height,
            r.depth == depth,
            r.buffer@ == default_buffer(width as int * height as int),
            r.renderer.render_calls == 0,
            r.renderer.clear_calls == 0,
            r.renderer.size == (0usize, 0usize),
    {
        Viewport::new(width, height, depth, MockRenderer::new())
    }
}

} // verus!
