//! Signed clearance between a rectangle and a container on each side.

use vstd::prelude::*;

use crate::geometry::RectModel;
use crate::geometry::Side;
use crate::geometry::ElemRect;

verus! {

/// The signed clearance between a rectangle and its container on each side.
///
/// Positive = the rectangle is inset from that boundary by `amount` units.
/// Negative = the rectangle overflows past that boundary by `amount` units.
/// 0 = flush with the boundary.
#[derive(Debug, Clone, Copy, PartialEq, Eq, Structural)]
pub struct SpaceAround {
    pub left: i64,
    pub top: i64,
    pub right: i64,
    pub bottom: i64,
}

/// Mathematical model of a [`SpaceAround`] over unbounded integers.
pub struct SpaceModel {
    pub left: int,
    pub top: int,
    pub right: int,
    pub bottom: int,
}

impl View for SpaceAround {
    type V = SpaceModel;

    open spec fn view(&self) -> SpaceModel {
        SpaceModel {
            left: self.left as int,
            top: self.top as int,
            right: self.right as int,
            bottom: self.bottom as int,
        }
    }
}

/// The clearance of `rect` within `container` on every side.
pub open spec fn space_around_model(rect: RectModel, container: RectModel) -> SpaceModel {
    SpaceModel {
        left: rect.left() - container.left(),
        top: rect.top() - container.top(),
        right: container.right() - rect.right(),
        bottom: container.bottom() - rect.bottom(),
    }
}

impl SpaceModel {
    /// The clearance on the given side.
    pub open spec fn on_side(self, side: Side) -> int {
        match side {
            Side::Left => self.left,
            Side::Top => self.top,
            Side::Right => self.right,
            Side::Bottom => self.bottom,
        }
    }

    /// The same clearances with the entry for `side` replaced by `v`.
    pub open spec fn with_side(self, side: Side, v: int) -> SpaceModel {
        match side {
            Side::Left => SpaceModel { left: v, ..self },
            Side::Top => SpaceModel { top: v, ..self },
            Side::Right => SpaceModel { right: v, ..self },
            Side::Bottom => SpaceModel { bottom: v, ..self },
        }
    }

    /// The smallest of the four clearances.
    pub open spec fn min(self) -> int {
        vstd::math::min(
            vstd::math::min(self.left, self.top),
            vstd::math::min(self.right, self.bottom),
        )
    }
}

impl SpaceAround {
    /// The clearance on the given side.
    pub fn on_side(&self, side: Side) -> (r: i64)
        ensures
            r == self@.on_side(side),
    {
        match side {
            Side::Left => self.left,
            Side::Top => self.top,
            Side::Right => self.right,
            Side::Bottom => self.bottom,
        }
    }

    /// Replaces the clearance on the given side.
    pub fn set_on_side(&mut self, side: Side, v: i64)
        ensures
            final(self)@ == old(self)@.with_side(side, v as int),
    {
        match side {
            Side::Left => self.left = v,
            Side::Top => self.top = v,
            Side::Right => self.right = v,
            Side::Bottom => self.bottom = v,
        }
    }

    /// The smallest of the four clearances.
    pub fn min(&self) -> (r: i64)
        ensures
            r == self@.min(),
    {
        let mut m: i64 = self.left;
        if self.top < m {
            m = self.top;
        }
        if self.right < m {
            m = self.right;
        }
        if self.bottom < m {
            m = self.bottom;
        }
        m
    }

    /// Returns the space on all four sides.
    ///
    /// You should not rely on the order of the values.
    pub fn on_all_sides(&self) -> (r: [i64; 4])
        ensures
            r@.to_multiset() == seq![self.left, self.top, self.right, self.bottom].to_multiset(),
    {
        [self.left, self.top, self.right, self.bottom]
    }
}

/// Computes the signed clearance of `rect` on every side of `container`.
pub fn space_around(rect: &ElemRect, container: &ElemRect) -> (r: SpaceAround)
    requires
        i64::MIN <= rect@.right() <= i64::MAX,
        i64::MIN <= rect@.bottom() <= i64::MAX,
        i64::MIN <= container@.right() <= i64::MAX,
        i64::MIN <= container@.bottom() <= i64::MAX,
        i64::MIN <= rect@.left() - container@.left() <= i64::MAX,
        i64::MIN <= rect@.top() - container@.top() <= i64::MAX,
        i64::MIN <= container@.right() - rect@.right() <= i64::MAX,
        i64::MIN <= container@.bottom() - rect@.bottom() <= i64::MAX,
    ensures
        r@ == space_around_model(rect@, container@),
{
    let left = rect.left() - container.left();
    let top = rect.top() - container.top();
    let right = container.right() - rect.right();
    let bottom = container.bottom() - rect.bottom();
    SpaceAround { left, top, right, bottom }
}

/// A rectangle that lies fully inside its container has nonnegative
/// clearance on all four sides; a boundary the rectangle touches has
/// clearance exactly zero.
pub proof fn lemma_space_around_inside(rect: RectModel, container: RectModel)
    requires
        container.left() <= rect.left(),
        container.top() <= rect.top(),
        rect.right() <= container.right(),
        rect.bottom() <= container.bottom(),
    ensures
        space_around_model(rect, container).left >= 0,
        space_around_model(rect, container).top >= 0,
        space_around_model(rect, container).right >= 0,
        space_around_model(rect, container).bottom >= 0,
        rect.left() == container.left() ==> space_around_model(rect, container).left == 0,
        rect.top() == container.top() ==> space_around_model(rect, container).top == 0,
        rect.right() == container.right() ==> space_around_model(rect, container).right == 0,
        rect.bottom() == container.bottom() ==> space_around_model(rect, container).bottom == 0,
{
}

} // verus!
