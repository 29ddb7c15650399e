//! Geometry primitives: sides, vectors, sizes and rectangles, together with
//! the scalar helpers (truncating halving, clamping) the modifiers share.

pub mod rect;
pub mod side;
pub mod size;
pub mod vec2;

pub use rect::ElemRect;
pub use rect::RectModel;
pub use side::Orientation;
pub use side::Side;
pub use size::ElemSize;
pub use size::SizeModel;
pub use vec2::Vec2;
pub use vec2::Vec2Model;

use vstd::prelude::*;

verus! {

/// Mathematical halving that truncates toward zero, matching `v / 2` on a
/// signed machine integer.
pub open spec fn half(v: int) -> int {
    if v >= 0 {
        v / 2
    } else {
        -((-v) / 2)
    }
}

/// Clamps `v` into the interval `[lo, hi]`. The bounds are not required to be
/// ordered: when the interval is empty the lower bound wins.
pub open spec fn clamp(v: int, lo: int, hi: int) -> int {
    if v < lo {
        lo
    } else if v > hi {
        hi
    } else {
        v
    }
}

/// Clamps a scalar into `[lo, hi]`; when the interval is empty the lower
/// bound wins.
pub fn clamp_i64(v: i64, lo: i64, hi: i64) -> (r: i64)
    ensures
        r == clamp(v as int, lo as int, hi as int),
{
    if v < lo {
        lo
    } else if v > hi {
        hi
    } else {
        v
    }
}

} // verus!
