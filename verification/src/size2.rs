//! Two-dimensional sizes: purely descriptive extents that never take
//! part in point or vector algebra.

use vstd::prelude::*;

use crate::scalar::Scalar;

verus! {

/// A width and a height; carries no affine weight.
#[derive(Clone, Copy, Debug)]
pub struct Size2 {
    pub width: Scalar,
    pub height: Scalar,
}

impl Size2 {
    /// A size from its extents.
    pub fn new(width: Scalar, height: Scalar) -> (r: Size2)
        ensures
            r.width == width,
            r.height == height,
    {
        Size2 { width, height }
    }

    /// The horizontal extent.
    pub fn width(&self) -> (r: Scalar)
        ensures
            r == self.width,
    {
        self.width
    }

    /// The vertical extent.
    pub fn height(&self) -> (r: Scalar)
        ensures
            r == self.height,
    {
        self.height
    }
}

/// A size from its extents.
pub fn size2(width: Scalar, height: Scalar) -> (r: Size2)
    ensures
        r.width == width,
        r.height == height,
{
    Size2::new(width, height)
}

} // verus!
