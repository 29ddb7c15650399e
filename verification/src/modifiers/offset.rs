//! Offset: shifts the floater by a fixed signed amount outward from the
//! reference, along the placement direction.

use vstd::prelude::*;

use crate::geometry::Side;
use crate::geometry::Vec2Model;
use crate::modifiers::input_limit;
use crate::modifiers::ModifierReturn;
use crate::modifiers::ModifierState;
use crate::modifiers::ReturnModel;
use crate::modifiers::StateModel;

verus! {

/// The patch an offset of `amount` produces: the floater moves outward from
/// the reference along the placement direction.
pub open spec fn offset_return(amount: int, s: StateModel) -> ReturnModel {
    let p = s.floater.point;
    let q = match s.side {
        Side::Left => Vec2Model { x: p.x - amount, ..p },
        Side::Right => Vec2Model { x: p.x + amount, ..p },
        Side::Top => Vec2Model { y: p.y - amount, ..p },
        Side::Bottom => Vec2Model { y: p.y + amount, ..p },
    };
    ReturnModel { point: Some(q), size: None, side: None }
}

/// An offset modifier that moves the floater outward from the reference by
/// `amount` along the placement direction.
pub fn offset(amount: i64) -> (m: crate::modifiers::Modifier)
    ensures
        m == (crate::modifiers::Modifier::Offset { amount }),
{
    crate::modifiers::Modifier::Offset { amount }
}

/// Applies an offset of `amount` to the state.
pub(crate) fn run(amount: i64, state: &ModifierState) -> (r: ModifierReturn)
    requires
        state@.bounded(),
        -input_limit() <= amount <= input_limit(),
    ensures
        r@ == offset_return(amount as int, state@),
{
    let pos = state.floater.point();
    let (x, y) = match state.side {
        Side::Left => (pos.x - amount, pos.y),
        Side::Right => (pos.x + amount, pos.y),
        Side::Top => (pos.x, pos.y - amount),
        Side::Bottom => (pos.x, pos.y + amount),
    };
    ModifierReturn::new().point_xy(x, y)
}

} // verus!
