//! The errors that can occur using the library.

use vstd::prelude::*;

verus! {

/// A failure reported by the presentation side of a viewport.
#[derive(Clone, Copy, Debug, PartialEq, Eq)]
pub enum ViewportError {
    /// No adapter was found to manage the rendering; fatal to the viewport
    /// being constructed.
    AdapterNotFound,
    /// A render or clear call failed at the backend.
    Rendering,
}

} // verus!
