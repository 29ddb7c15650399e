//! Two-dimensional vectors and their side-relative decomposition.

use vstd::prelude::*;

use crate::geometry::Orientation;
use crate::geometry::Side;

verus! {

/// A point or displacement in the shared coordinate space.
///
/// Positive `x` goes right, positive `y` goes down.
#[derive(Debug, Clone, Copy, PartialEq, Eq, Structural)]
pub struct Vec2 {
    pub x: i64,
    pub y: i64,
}

/// Mathematical model of a [`Vec2`]: the same pair over unbounded integers.
pub struct Vec2Model {
    pub x: int,
    pub y: int,
}

impl View for Vec2 {
    type V = Vec2Model;

    open spec fn view(&self) -> Vec2Model {
        Vec2Model { x: self.x as int, y: self.y as int }
    }
}

impl Vec2Model {
    /// The component parallel to the given side: `x` for the vertical
    /// left/right edges, `y` for the horizontal top/bottom edges.
    pub open spec fn coord_cross(self, side: Side) -> int {
        match side.orientation_spec() {
            Orientation::Vertical => self.x,
            Orientation::Horizontal => self.y,
        }
    }

    /// The component perpendicular to the given side: `y` for the vertical
    /// left/right edges, `x` for the horizontal top/bottom edges.
    pub open spec fn coord_main(self, side: Side) -> int {
        match side.orientation_spec() {
            Orientation::Horizontal => self.x,
            Orientation::Vertical => self.y,
        }
    }

    /// The same vector with the component parallel to `side` replaced by `v`.
    pub open spec fn with_coord_cross(self, side: Side, v: int) -> Vec2Model {
        match side.orientation_spec() {
            Orientation::Vertical => Vec2Model { x: v, ..self },
            Orientation::Horizontal => Vec2Model { y: v, ..self },
        }
    }

    /// The same vector with the component perpendicular to `side` replaced by
    /// `v`.
    pub open spec fn with_coord_main(self, side: Side, v: int) -> Vec2Model {
        match side.orientation_spec() {
            Orientation::Horizontal => Vec2Model { x: v, ..self },
            Orientation::Vertical => Vec2Model { y: v, ..self },
        }
    }

    /// Both components lie within `[-b, b]`.
    pub open spec fn within(self, b: int) -> bool {
        -b <= self.x <= b && -b <= self.y <= b
    }
}

impl Vec2 {
    pub fn new(x: i64, y: i64) -> (r: Vec2)
        ensures
            r@ == (Vec2Model { x: x as int, y: y as int }),
    {
        Vec2 { x, y }
    }

    /// Returns the component of the coordinate that is in the direction
    /// parallel to the provided side.
    ///
    /// left/right => x, top/bottom => y.
    pub fn coord_cross(&self, side: Side) -> (r: i64)
        ensures
            r == self@.coord_cross(side),
    {
        match side.orientation() {
            Orientation::Vertical => self.x,
            Orientation::Horizontal => self.y,
        }
    }

    /// Returns the component of the coordinate that is in the direction
    /// perpendicular to the provided side.
    ///
    /// left/right => y, top/bottom => x.
    pub fn coord_main(&self, side: Side) -> (r: i64)
        ensures
            r == self@.coord_main(side),
    {
        match side.orientation() {
            Orientation::Horizontal => self.x,
            Orientation::Vertical => self.y,
        }
    }

    /// Replaces the component parallel to `side` with `v`.
    pub fn set_coord_cross(&mut self, side: Side, v: i64)
        ensures
            final(self)@ == old(self)@.with_coord_cross(side, v as int),
    {
        match side.orientation() {
            Orientation::Vertical => self.x = v,
            Orientation::Horizontal => self.y = v,
        }
    }

    /// Replaces the component perpendicular to `side` with `v`.
    pub fn set_coord_main(&mut self, side: Side, v: i64)
        ensures
            final(self)@ == old(self)@.with_coord_main(side, v as int),
    {
        match side.orientation() {
            Orientation::Horizontal => self.x = v,
            Orientation::Vertical => self.y = v,
        }
    }

    /// Componentwise negation.
    pub fn neg(self) -> (r: Vec2)
        requires
            i64::MIN < self.x,
            i64::MIN < self.y,
        ensures
            r@.x == -self@.x,
            r@.y == -self@.y,
    {
        Vec2 { x: -self.x, y: -self.y }
    }

    /// Componentwise addition.
    pub fn plus(self, rhs: Vec2) -> (r: Vec2)
        requires
            i64::MIN <= self.x + rhs.x <= i64::MAX,
            i64::MIN <= self.y + rhs.y <= i64::MAX,
        ensures
            r@.x == self@.x + rhs@.x,
            r@.y == self@.y + rhs@.y,
    {
        Vec2 { x: self.x + rhs.x, y: self.y + rhs.y }
    }

    /// Componentwise subtraction.
    pub fn minus(self, rhs: Vec2) -> (r: Vec2)
        requires
            i64::MIN <= self.x - rhs.x <= i64::MAX,
            i64::MIN <= self.y - rhs.y <= i64::MAX,
        ensures
            r@.x == self@.x - rhs@.x,
            r@.y == self@.y - rhs@.y,
    {
        Vec2 { x: self.x - rhs.x, y: self.y - rhs.y }
    }

    /// Uniform scaling by an integer factor.
    pub fn scale(self, k: i64) -> (r: Vec2)
        requires
            i64::MIN <= self.x * k <= i64::MAX,
            i64::MIN <= self.y * k <= i64::MAX,
        ensures
            r@.x == self@.x * k,
            r@.y == self@.y * k,
    {
        Vec2 { x: self.x * k, y: self.y * k }
    }
}

} // verus!
