//! The dimensions of a rectangle.

use vstd::prelude::*;

use crate::geometry::Side;
use crate::geometry::Vec2;
use crate::geometry::Vec2Model;

verus! {

/// The dimensions of a rectangle.
///
/// Width and height may be negative, e.g. to represent overlapping or
/// degenerate spaces; no validation is applied.
#[derive(Debug, Clone, Copy, PartialEq, Eq, Structural)]
pub struct ElemSize {
    pub width: i64,
    pub height: i64,
}

/// Mathematical model of an [`ElemSize`] over unbounded integers.
pub struct SizeModel {
    pub width: int,
    pub height: int,
}

impl View for ElemSize {
    type V = SizeModel;

    open spec fn view(&self) -> SizeModel {
        SizeModel { width: self.width as int, height: self.height as int }
    }
}

impl SizeModel {
    /// The same pair read as a displacement.
    pub open spec fn as_vec2(self) -> Vec2Model {
        Vec2Model { x: self.width, y: self.height }
    }

    /// The length of the rectangle parallel to the given side.
    pub open spec fn dim_cross(self, side: Side) -> int {
        self.as_vec2().coord_cross(side)
    }

    /// The length of the rectangle perpendicular to the given side.
    pub open spec fn dim_main(self, side: Side) -> int {
        self.as_vec2().coord_main(side)
    }

    /// Both dimensions lie within `[-b, b]`.
    pub open spec fn within(self, b: int) -> bool {
        -b <= self.width <= b && -b <= self.height <= b
    }
}

impl ElemSize {
    pub fn new(width: i64, height: i64) -> (r: ElemSize)
        ensures
            r@ == (SizeModel { width: width as int, height: height as int }),
    {
        ElemSize { width, height }
    }

    pub fn width(&self) -> (r: i64)
        ensures
            r == self@.width,
    {
        self.width
    }

    pub fn height(&self) -> (r: i64)
        ensures
            r == self@.height,
    {
        self.height
    }

    /// The dimensions read as a vector, width as `x` and height as `y`.
    pub fn as_vec2(&self) -> (r: Vec2)
        ensures
            r@ == self@.as_vec2(),
    {
        Vec2 { x: self.width, y: self.height }
    }

    /// Returns the length of the rectangle parallel to the provided side.
    pub fn dim_cross(&self, side: Side) -> (r: i64)
        ensures
            r == self@.dim_cross(side),
    {
        self.as_vec2().coord_cross(side)
    }

    /// Returns the length of the rectangle perpendicular to the provided
    /// side.
    pub fn dim_main(&self, side: Side) -> (r: i64)
        ensures
            r == self@.dim_main(side),
    {
        self.as_vec2().coord_main(side)
    }
}

} // verus!
