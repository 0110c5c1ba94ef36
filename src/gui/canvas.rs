//! The draw surface handed to a draw callback.
use vstd::prelude::*;

verus! {

/// A draw surface, known by its address.
pub struct Canvas {
    hnd: usize,
}

impl View for Canvas {
    type V = usize;

    closed spec fn view(&self) -> usize {
        self.hnd
    }
}

impl Canvas {
    /// Wraps the surface at a non-null address.
    pub fn from_ptr(canvas: usize) -> (r: Canvas)
        requires
            canvas != 0,
        ensures
            r@ == canvas,
    {
        Canvas { hnd: canvas }
    }

    pub fn as_ptr(&self) -> (r: usize)
        ensures
            r == self@,
    {
        self.hnd
    }
}

} // verus!
