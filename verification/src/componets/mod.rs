//! The component tree and the rectangle it is laid out in.

use vstd::prelude::*;

pub mod component;

verus! {

/// A rectangular region: the position of its corner and its size.
#[derive(Debug)]
pub struct Layout {
    x: usize,
    y: usize,
    w: usize,
    h: usize,
}

impl Layout {
    /// The corner of the region, as `(x, y)`.
    pub closed spec fn position(&self) -> (usize, usize) {
        (self.x, self.y)
    }

    /// The extent of the region, as `(width, height)`.
    pub closed spec fn size(&self) -> (usize, usize) {
        (self.w, self.h)
    }

    pub fn new(x: usize, y: usize, w: usize, h: usize) -> (layout: Self)
        ensures
            layout.position() == (x, y),
            layout.size() == (w, h),
    {
        Self { x, y, w, h }
    }

    pub fn get_possition(&self) -> (at: (usize, usize))
        ensures
            at == self.position(),
    {
        (self.x, self.y)
    }

    pub fn get_size(&self) -> (extent: (usize, usize))
        ensures
            extent == self.size(),
    {
        (self.w, self.h)
    }
}

} // verus!
