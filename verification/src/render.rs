//! The capability contracts of the presentation backend, and a backend that
//! presents nowhere, for tests.
//!
//! The two capabilities are deliberately split: a backend can implement
//! either, both, or be mocked independently.

use vstd::prelude::*;
use crate::error::ViewportError;
use crate::pixel::Pixel;

verus! {

/// The presentation capability: consumes a finished pixel buffer and
/// presents it.
pub trait Render {
    /// Presents the buffer, which holds the screen's pixels in row-major
    /// order.
    fn render(&mut self, buffer: &Vec<Pixel>) -> Result<(), ViewportError>;

    /// Presents a blank frame immediately, without needing a buffer.
    fn clear(&mut self) -> Result<(), ViewportError>;
}

/// The resize capability: learns that the presentation surface changed
/// size.
pub trait Resize {
    /// Notifies the backend of the new surface size; assumed to always
    /// succeed.
    fn resize(&mut self, width: usize, height: usize);
}

/// A presentation backend that presents nowhere and only records what it
/// was asked; the backend the viewport factory hands out for tests.
pub struct MockRenderer {
    /// How many buffers were handed over to be presented.
    pub render_calls: usize,
    /// How many blank frames were asked for.
    pub clear_calls: usize,
    /// The last size the backend was told about.
    pub size: (usize, usize),
}

impl MockRenderer {
    /// A fresh mock that has seen no call yet.
    pub fn new() -> (r: MockRenderer)
        ensures
            r.render_calls == 0,
            r.clear_calls == 0,
            r.size == (0usize, 0usize),
    {
        MockRenderer { render_calls: 0, clear_calls: 0, size: (0, 0) }
    }
}

impl Render for MockRenderer {
    fn render(&mut self, _buffer: &Vec<Pixel>) -> Result<(), ViewportError> {
        if self.render_calls < usize::MAX {
            self.render_calls = self.render_calls + 1;
        }
        Ok(())
    }

    fn clear(&mut self) -> Result<(), ViewportError> {
        if self.clear_calls < usize::MAX {
            self.clear_calls = self.clear_calls + 1;
        }
        Ok(())
    }
}

impl Resize for MockRenderer {
    fn resize(&mut self, width: usize, height: usize) {
        self.size = (width, height);
    }
}

} // verus!
