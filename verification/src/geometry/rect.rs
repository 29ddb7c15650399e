//! Rectangles: a point plus a size.

use vstd::prelude::*;

use crate::geometry::half;
use crate::geometry::ElemSize;
use crate::geometry::SizeModel;
use crate::geometry::Vec2;
use crate::geometry::Vec2Model;

verus! {

/// A rectangle placed in the shared coordinate space.
///
/// Positive `x` goes right, positive `y` goes down. Width and height may be
/// negative; derived edges are not required to be ordered.
#[derive(Debug, Clone, Copy, PartialEq, Eq, Structural)]
pub struct ElemRect {
    pub point: Vec2,
    pub size: ElemSize,
}

/// Mathematical model of an [`ElemRect`] over unbounded integers.
pub struct RectModel {
    pub point: Vec2Model,
    pub size: SizeModel,
}

impl View for ElemRect {
    type V = RectModel;

    open spec fn view(&self) -> RectModel {
        RectModel { point: self.point@, size: self.size@ }
    }
}

impl RectModel {
    pub open spec fn left(self) -> int {
        self.point.x
    }

    pub open spec fn right(self) -> int {
        self.point.x + self.size.width
    }

    pub open spec fn top(self) -> int {
        self.point.y
    }

    pub open spec fn bottom(self) -> int {
        self.point.y + self.size.height
    }

    /// The centre of the rectangle; halves truncate toward zero.
    pub open spec fn center(self) -> Vec2Model {
        Vec2Model {
            x: self.point.x + half(self.size.width),
            y: self.point.y + half(self.size.height),
        }
    }

    /// Point and size both lie within `[-b, b]`.
    pub open spec fn within(self, b: int) -> bool {
        self.point.within(b) && self.size.within(b)
    }
}

impl ElemRect {
    pub fn new(x: i64, y: i64, width: i64, height: i64) -> (r: ElemRect)
        ensures
            r@ == (RectModel {
                point: Vec2Model { x: x as int, y: y as int },
                size: SizeModel { width: width as int, height: height as int },
            }),
    {
        ElemRect { point: Vec2::new(x, y), size: ElemSize::new(width, height) }
    }

    pub fn from_parts(point: Vec2, size: ElemSize) -> (r: ElemRect)
        ensures
            r@ == (RectModel { point: point@, size: size@ }),
    {
        ElemRect { point, size }
    }

    pub fn x(&self) -> (r: i64)
        ensures
            r == self@.point.x,
    {
        self.point.x
    }

    pub fn y(&self) -> (r: i64)
        ensures
            r == self@.point.y,
    {
        self.point.y
    }

    pub fn width(&self) -> (r: i64)
        ensures
            r == self@.size.width,
    {
        self.size.width
    }

    pub fn height(&self) -> (r: i64)
        ensures
            r == self@.size.height,
    {
        self.size.height
    }

    pub fn left(&self) -> (r: i64)
        ensures
            r == self@.left(),
    {
        self.point.x
    }

    pub fn right(&self) -> (r: i64)
        requires
            i64::MIN <= self@.right() <= i64::MAX,
        ensures
            r == self@.right(),
    {
        self.point.x + self.size.width
    }

    pub fn top(&self) -> (r: i64)
        ensures
            r == self@.top(),
    {
        self.point.y
    }

    pub fn bottom(&self) -> (r: i64)
        requires
            i64::MIN <= self@.bottom() <= i64::MAX,
        ensures
            r == self@.bottom(),
    {
        self.point.y + self.size.height
    }

    pub fn xy(&self) -> (r: (i64, i64))
        ensures
            r.0 == self@.point.x,
            r.1 == self@.point.y,
    {
        (self.point.x, self.point.y)
    }

    pub fn point(&self) -> (r: Vec2)
        ensures
            r@ == self@.point,
    {
        self.point
    }

    pub fn size(&self) -> (r: ElemSize)
        ensures
            r@ == self@.size,
    {
        self.size
    }

    /// Replaces the rectangle's point.
    pub fn set_point(&mut self, point: Vec2)
        ensures
            final(self)@ == (RectModel { point: point@, ..old(self)@ }),
    {
        self.point = point;
    }

    /// Replaces the rectangle's size.
    pub fn set_size(&mut self, size: ElemSize)
        ensures
            final(self)@ == (RectModel { size: size@, ..old(self)@ }),
    {
        self.size = size;
    }

    /// Replaces the `x` coordinate of the rectangle's point.
    pub fn set_x(&mut self, x: i64)
        ensures
            final(self)@ == (RectModel {
                point: Vec2Model { x: x as int, ..old(self)@.point },
                ..old(self)@
            }),
    {
        self.point.x = x;
    }

    /// Replaces the `y` coordinate of the rectangle's point.
    pub fn set_y(&mut self, y: i64)
        ensures
            final(self)@ == (RectModel {
                point: Vec2Model { y: y as int, ..old(self)@.point },
                ..old(self)@
            }),
    {
        self.point.y = y;
    }

    /// The centre of the rectangle; halves truncate toward zero.
    pub fn center(&self) -> (r: Vec2)
        requires
            i64::MIN < self@.size.width,
            i64::MIN < self@.size.height,
            i64::MIN <= self@.point.x + half(self@.size.width) <= i64::MAX,
            i64::MIN <= self@.point.y + half(self@.size.height) <= i64::MAX,
        ensures
            r@ == self@.center(),
    {
        Vec2 { x: self.point.x + self.size.width / 2, y: self.point.y + self.size.height / 2 }
    }
}

} // verus!
