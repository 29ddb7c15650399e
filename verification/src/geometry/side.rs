//! The four sides of a rectangle and their relations.

use vstd::prelude::*;

verus! {

/// One of the four edges of a rectangle.
///
/// A side describes an *edge*, and doubles as the direction in which the
/// floater is placed relative to the reference.
#[derive(Debug, Clone, Copy, PartialEq, Eq, Hash, Structural)]
pub enum Side {
    Left,
    Top,
    Right,
    Bottom,
}

/// The orientation of a [`Side`], either horizontal or vertical.
///
/// Created by [`Side::orientation`].
#[derive(Debug, Clone, Copy, PartialEq, Eq, Structural)]
pub enum Orientation {
    Horizontal,
    Vertical,
}

impl Side {
    /// The side opposite to the current one.
    pub open spec fn opposite_spec(self) -> Side {
        match self {
            Side::Left => Side::Right,
            Side::Top => Side::Bottom,
            Side::Right => Side::Left,
            Side::Bottom => Side::Top,
        }
    }

    /// Returns the side opposite to the current.
    #[verifier::when_used_as_spec(opposite_spec)]
    pub fn opposite(self) -> (r: Side)
        ensures
            r == self.opposite_spec(),
    {
        match self {
            Side::Left => Side::Right,
            Side::Top => Side::Bottom,
            Side::Right => Side::Left,
            Side::Bottom => Side::Top,
        }
    }

    /// The side 90 degrees clockwise of the current one.
    pub open spec fn clockwise_spec(self) -> Side {
        match self {
            Side::Left => Side::Top,
            Side::Top => Side::Right,
            Side::Right => Side::Bottom,
            Side::Bottom => Side::Left,
        }
    }

    /// Returns the side 90 degrees clockwise of the current.
    #[verifier::when_used_as_spec(clockwise_spec)]
    pub fn clockwise(self) -> (r: Side)
        ensures
            r == self.clockwise_spec(),
    {
        match self {
            Side::Left => Side::Top,
            Side::Top => Side::Right,
            Side::Right => Side::Bottom,
            Side::Bottom => Side::Left,
        }
    }

    /// The side 90 degrees anticlockwise of the current one.
    pub open spec fn anticlockwise_spec(self) -> Side {
        match self {
            Side::Left => Side::Bottom,
            Side::Top => Side::Left,
            Side::Right => Side::Top,
            Side::Bottom => Side::Right,
        }
    }

    /// Returns the side 90 degrees anticlockwise of the current.
    #[verifier::when_used_as_spec(anticlockwise_spec)]
    pub fn anticlockwise(self) -> (r: Side)
        ensures
            r == self.anticlockwise_spec(),
    {
        match self {
            Side::Left => Side::Bottom,
            Side::Top => Side::Left,
            Side::Right => Side::Top,
            Side::Bottom => Side::Right,
        }
    }

    /// Returns the two sides adjacent to the current, in the order of the
    /// side anticlockwise, then clockwise. The order is fixed: the modifiers
    /// iterate adjacent sides in exactly this order.
    pub fn adjacents(self) -> (r: [Side; 2])
        ensures
            r[0] == self.anticlockwise_spec(),
            r[1] == self.clockwise_spec(),
    {
        [self.anticlockwise(), self.clockwise()]
    }

    /// The orientation of the side: left/right are vertical edges, top/bottom
    /// horizontal ones.
    pub open spec fn orientation_spec(self) -> Orientation {
        match self {
            Side::Left | Side::Right => Orientation::Vertical,
            Side::Top | Side::Bottom => Orientation::Horizontal,
        }
    }

    /// Returns the orientation of a side.
    ///
    /// Left/right => vertical, top/bottom => horizontal.
    #[verifier::when_used_as_spec(orientation_spec)]
    pub fn orientation(self) -> (r: Orientation)
        ensures
            r == self.orientation_spec(),
    {
        match self {
            Side::Left | Side::Right => Orientation::Vertical,
            Side::Top | Side::Bottom => Orientation::Horizontal,
        }
    }

    /// Returns the CSS inset property of the given side, i.e. the side name
    /// in all lowercase.
    pub fn as_css_prop(self) -> (r: &'static str)
        ensures
            self == Side::Left ==> r@ == "left"@,
            self == Side::Top ==> r@ == "top"@,
            self == Side::Right ==> r@ == "right"@,
            self == Side::Bottom ==> r@ == "bottom"@,
    {
        match self {
            Side::Left => "left",
            Side::Top => "top",
            Side::Right => "right",
            Side::Bottom => "bottom",
        }
    }
}

impl Default for Side {
    /// The default placement side is below the reference.
    fn default() -> (s: Side)
        ensures
            s == Side::Bottom,
    {
        Side::Bottom
    }
}

/// Taking the opposite side twice returns to the original side.
pub proof fn lemma_opposite_involutive(s: Side)
    ensures
        s.opposite_spec().opposite_spec() == s,
{
}

/// Four clockwise quarter turns return to the original side, and a clockwise
/// turn undoes an anticlockwise one.
pub proof fn lemma_rotation_cycle(s: Side)
    ensures
        s.clockwise_spec().clockwise_spec().clockwise_spec().clockwise_spec() == s,
        s.anticlockwise_spec().clockwise_spec() == s,
        s.clockwise_spec().anticlockwise_spec() == s,
{
}

} // verus!
