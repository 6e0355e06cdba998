use vstd::prelude::*;

verus! {

/// Client-area size of the window, in pixels.
#[derive(Clone, Copy, PartialEq, Eq, Structural, Debug)]
pub struct WindowDimension {
    pub width: i32,
    pub height: i32,
}

impl WindowDimension {
    /// Wrap a measured client-area size.
    pub fn new(width: i32, height: i32) -> (r: Self)
        ensures
            r.width == width,
            r.height == height,
    {
        WindowDimension { width, height }
    }
}

} // verus!
