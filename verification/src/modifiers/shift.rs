//! Shift: keeps the floater from extending past the container along the
//! cross axis, with a replaceable limiter policy.

use vstd::prelude::*;

use crate::geometry::clamp;
use crate::geometry::clamp_i64;
use crate::geometry::Orientation;
use crate::geometry::RectModel;
use crate::geometry::Side;
use crate::geometry::Vec2;
use crate::geometry::Vec2Model;
use crate::modifiers::input_limit;
use crate::modifiers::ModifierReturn;
use crate::modifiers::ModifierState;
use crate::modifiers::Padding;
use crate::modifiers::ReturnModel;
use crate::modifiers::StateModel;
use crate::modifiers::empty_return;
use crate::space::space_around;
use crate::space::space_around_model;

verus! {

/// The policy that bounds how far a shift may move the floater.
#[derive(Debug, Clone, Copy, PartialEq, Eq, Structural)]
pub enum ShiftLimiter {
    /// Leaves the tentative position unchanged.
    NoLimit,
    /// Keeps the floater within `padding` of the reference along the main
    /// axis, so a large correction can never fully detach it.
    Attached { padding: i64 },
}

/// A limiter that never changes the tentative position.
pub fn no_limit() -> (r: ShiftLimiter)
    ensures
        r == ShiftLimiter::NoLimit,
{
    ShiftLimiter::NoLimit
}

/// A limiter that keeps the floater attached to the reference, staying at
/// least `padding` inside the reference's extent along the main axis.
pub fn attached(padding: i64) -> (r: ShiftLimiter)
    ensures
        r == (ShiftLimiter::Attached { padding }),
{
    ShiftLimiter::Attached { padding }
}

/// The position the limiter settles on, given a state whose floater already
/// sits at the tentative corrected position.
///
/// The attached limiter clamps the floater's main-axis coordinate into
/// `[reference near edge + padding - floater length, reference far edge -
/// padding]`; when that window is empty the lower bound wins.
pub open spec fn limiter_point(l: ShiftLimiter, s: StateModel) -> Vec2Model {
    match l {
        ShiftLimiter::NoLimit => s.floater.point,
        ShiftLimiter::Attached { padding } => match s.side.orientation_spec() {
            Orientation::Vertical => {
                let lo = s.reference.top() + padding - s.floater.size.height;
                let hi = s.reference.bottom() - padding;
                Vec2Model { y: clamp(s.floater.point.y, lo, hi), ..s.floater.point }
            },
            Orientation::Horizontal => {
                let lo = s.reference.left() + padding - s.floater.size.width;
                let hi = s.reference.right() - padding;
                Vec2Model { x: clamp(s.floater.point.x, lo, hi), ..s.floater.point }
            },
        },
    }
}

impl ShiftLimiter {
    /// The configured scalar stays within the input limit.
    pub open spec fn admissible(self) -> bool {
        match self {
            ShiftLimiter::NoLimit => true,
            ShiftLimiter::Attached { padding } => -input_limit() <= padding <= input_limit(),
        }
    }

    /// Returns the final position for a floater that already sits at the
    /// tentative corrected position carried by `state`.
    pub fn reshift(&self, state: &ModifierState) -> (p: Vec2)
        requires
            state@.bounded(),
            self.admissible(),
        ensures
            p@ == limiter_point(*self, state@),
    {
        match self {
            ShiftLimiter::NoLimit => state.floater.point(),
            ShiftLimiter::Attached { padding } => match state.side.orientation() {
                Orientation::Vertical => {
                    let lo = state.reference.top() + *padding - state.floater.height();
                    let hi = state.reference.bottom() - *padding;
                    Vec2::new(state.floater.x(), clamp_i64(state.floater.y(), lo, hi))
                },
                Orientation::Horizontal => {
                    let lo = state.reference.left() + *padding - state.floater.width();
                    let hi = state.reference.right() - *padding;
                    Vec2::new(clamp_i64(state.floater.x(), lo, hi), state.floater.y())
                },
            },
        }
    }
}

/// Prevents the floater from extending past the container along the cross
/// axis.
#[derive(Debug, Clone, Copy, PartialEq, Eq, Structural)]
pub struct Shift {
    pub padding: Padding,
    pub limiter: ShiftLimiter,
}

/// A shift modifier with no padding and the attached limiter.
pub fn shift() -> (r: Shift)
    ensures
        r == (Shift {
            padding: Padding { outward: 0i64, inward: 0i64, cross: 0i64 },
            limiter: ShiftLimiter::Attached { padding: 0i64 },
        }),
{
    Shift { padding: Padding::splat(0), limiter: attached(0) }
}

/// The tentative position that corrects the deficit on the adjacent side
/// `adj`: the floater's coordinate on the axis of `adj` moves by exactly the
/// missing clearance.
pub open spec fn corrected_point(cross_padding: int, s: StateModel, adj: Side) -> Vec2Model {
    let clearance = space_around_model(s.floater, s.container).on_side(adj);
    let amount = clearance - cross_padding;
    let delta = match adj {
        Side::Top | Side::Left => -amount,
        Side::Bottom | Side::Right => amount,
    };
    s.floater.point.with_coord_cross(adj, s.floater.point.coord_cross(adj) + delta)
}

/// The position committed after correcting on `adj`: the tentative corrected
/// position, passed through the limiter.
pub open spec fn shifted_point(m: Shift, s: StateModel, adj: Side) -> Vec2Model {
    let tentative = StateModel {
        floater: RectModel { point: corrected_point(m.padding.cross as int, s, adj), ..s.floater },
        ..s
    };
    limiter_point(m.limiter, tentative)
}

/// The patch a shift produces. Only the first adjacent side with
/// insufficient clearance (anticlockwise first, then clockwise) is corrected
/// per invocation; with sufficient clearance on both, nothing changes.
pub open spec fn shift_return(m: Shift, s: StateModel) -> ReturnModel {
    let sp = space_around_model(s.floater, s.container);
    let a1 = s.side.anticlockwise_spec();
    let a2 = s.side.clockwise_spec();
    if sp.on_side(a1) < m.padding.cross {
        ReturnModel { point: Some(shifted_point(m, s, a1)), size: None, side: None }
    } else if sp.on_side(a2) < m.padding.cross {
        ReturnModel { point: Some(shifted_point(m, s, a2)), size: None, side: None }
    } else {
        empty_return()
    }
}

impl Shift {
    /// The configured scalars stay within the input limit.
    pub open spec fn admissible(self) -> bool {
        self.padding.within(input_limit()) && self.limiter.admissible()
    }

    /// Replaces the limiter policy.
    pub fn limiter(self, limiter: ShiftLimiter) -> (r: Shift)
        ensures
            r == (Shift { limiter, ..self }),
    {
        Shift { limiter, ..self }
    }

    /// Sets all three padding budgets to the same value.
    pub fn padding(self, padding: i64) -> (r: Shift)
        ensures
            r == (Shift {
                padding: Padding { outward: padding, inward: padding, cross: padding },
                ..self
            }),
    {
        Shift { padding: Padding::splat(padding), ..self }
    }

    /// Sets the padding budget along the main axis, toward the reference.
    pub fn padding_inward(self, padding: i64) -> (r: Shift)
        ensures
            r == (Shift { padding: Padding { inward: padding, ..self.padding }, ..self }),
    {
        Shift { padding: Padding { inward: padding, ..self.padding }, ..self }
    }

    /// Sets the padding budget along the main axis, away from the reference.
    pub fn padding_outward(self, padding: i64) -> (r: Shift)
        ensures
            r == (Shift { padding: Padding { outward: padding, ..self.padding }, ..self }),
    {
        Shift { padding: Padding { outward: padding, ..self.padding }, ..self }
    }

    /// Sets the padding budget along the cross axis.
    pub fn padding_cross(self, padding: i64) -> (r: Shift)
        ensures
            r == (Shift { padding: Padding { cross: padding, ..self.padding }, ..self }),
    {
        Shift { padding: Padding { cross: padding, ..self.padding }, ..self }
    }

    /// Sets both main-axis padding budgets.
    pub fn padding_main(self, padding: i64) -> (r: Shift)
        ensures
            r == (Shift {
                padding: Padding { outward: padding, inward: padding, ..self.padding },
                ..self
            }),
    {
        self.padding_outward(padding).padding_inward(padding)
    }

    /// Corrects the floater on the adjacent side `adj` and runs the limiter.
    fn correct(&self, state: &ModifierState, adj: Side, clearance: i64) -> (r: ModifierReturn)
        requires
            state@.bounded(),
            self.admissible(),
            adj == state@.side.anticlockwise_spec() || adj == state@.side.clockwise_spec(),
            clearance == space_around_model(state@.floater, state@.container).on_side(adj),
        ensures
            r@ == (ReturnModel {
                point: Some(shifted_point(*self, state@, adj)),
                size: None,
                side: None,
            }),
    {
        let mut new_point = state.floater.point();
        let amount = clearance - self.padding.cross;
        let delta = match adj {
            Side::Top | Side::Left => -amount,
            Side::Bottom | Side::Right => amount,
        };
        let coord = new_point.coord_cross(adj);
        new_point.set_coord_cross(adj, coord + delta);

        // run the limiter with the corrected state
        let mut curr_state = *state;
        curr_state.floater.set_point(new_point);
        let limited = self.limiter.reshift(&curr_state);

        ModifierReturn::new().point(limited)
    }

    /// Runs the shift against the current state.
    pub fn run(&self, state: &ModifierState) -> (r: ModifierReturn)
        requires
            state@.bounded(),
            self.admissible(),
        ensures
            r@ == shift_return(*self, state@),
    {
        let space = space_around(&state.floater, &state.container);
        let adjacents = state.side.adjacents();

        let c0 = space.on_side(adjacents[0]);
        if c0 < self.padding.cross {
            return self.correct(state, adjacents[0], c0);
        }
        let c1 = space.on_side(adjacents[1]);
        if c1 < self.padding.cross {
            return self.correct(state, adjacents[1], c1);
        }
        ModifierReturn::new()
    }
}

/// Re-running a shift on its own already-corrected output (same reference
/// and container) yields no further change: the once-corrected state is a
/// fixpoint.
///
/// This needs the floater, with its cross padding on both sides, to fit in
/// the container along the shifted axis; and, for the attached limiter, the
/// clamp window to be nonempty (the limiter padding taken twice fits in the
/// reference and floater extents together). Without the first condition the
/// two adjacent sides cannot both be satisfied and repeated runs alternate
/// between them.
pub proof fn lemma_shift_idempotent(m: Shift, s: StateModel)
    requires
        s.floater.size.dim_main(s.side) + 2 * m.padding.cross <= s.container.size.dim_main(s.side),
        m.limiter matches ShiftLimiter::Attached { padding } ==> 2 * padding
            <= s.reference.size.dim_main(s.side) + s.floater.size.dim_main(s.side),
    ensures
        ({
            let s1 = s.updated_with(shift_return(m, s));
            s1.updated_with(shift_return(m, s1)) == s1
        }),
{
}

} // verus!
