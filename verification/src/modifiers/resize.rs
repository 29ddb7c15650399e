//! Resize: recomputes the floater's size from the space available around the
//! reference, then repositions it.

use vstd::prelude::*;

use crate::geometry::ElemSize;
use crate::geometry::Orientation;
use crate::geometry::Side;
use crate::geometry::SizeModel;
use crate::modifiers::input_limit;
use crate::modifiers::ModifierReturn;
use crate::modifiers::ModifierState;
use crate::modifiers::Padding;
use crate::modifiers::ReturnModel;
use crate::modifiers::StateModel;
use crate::placement_point;
use crate::compute_position_from_placement;
use crate::geometry::ElemRect;
use crate::space::space_around;
use crate::space::space_around_model;

verus! {

/// The rule that turns the available space into the floater's new size.
///
/// The available size may be negative on an axis when the reference itself
/// leaves no room; every rule must tolerate that.
#[derive(Debug, Clone, Copy, PartialEq, Eq, Structural)]
pub enum Recalculator {
    /// Adopt the available size as it is.
    Available,
    /// Shrink the current size to the available size where it exceeds it,
    /// keeping it otherwise (componentwise minimum).
    ClampCurrent,
    /// Use the given size, whatever is available.
    Fixed(ElemSize),
}

/// Resizes the floater based on the provided recalculation rule.
///
/// The rule receives the space available for the floater around the
/// reference (already reduced by the configured padding) and decides the new
/// size; the floater is then repositioned for that size.
#[derive(Debug, Clone, Copy, PartialEq, Eq, Structural)]
pub struct Resize {
    pub padding: Padding,
    pub recalculator: Recalculator,
}

/// A resize modifier with no padding and the given recalculation rule.
pub fn resize(recalculator: Recalculator) -> (r: Resize)
    ensures
        r == (Resize { padding: Padding { outward: 0i64, inward: 0i64, cross: 0i64 }, recalculator }),
{
    Resize { padding: Padding::splat(0), recalculator }
}

/// The space available for the floater on each axis: the container's extent,
/// less the part the reference occupies together with everything behind it
/// (which a floater on this side can never reach), less the configured
/// padding. The cross padding applies to the axis parallel to the placement
/// side, the outward and inward padding to the perpendicular one.
pub open spec fn available_size(m: Resize, s: StateModel) -> SizeModel {
    let sp = space_around_model(s.floater, s.container);
    let invalid = match s.side {
        Side::Left => s.container.right() - s.reference.left(),
        Side::Top => s.container.bottom() - s.reference.top(),
        Side::Right => s.reference.right() - s.container.left(),
        Side::Bottom => s.reference.bottom() - s.container.top(),
    };
    let opp = s.side.opposite_spec();
    let sp2 = sp.with_side(opp, sp.on_side(opp) - invalid);
    let padding_width = match s.side.orientation_spec() {
        Orientation::Vertical => m.padding.cross as int,
        Orientation::Horizontal => m.padding.outward + m.padding.inward,
    };
    let padding_height = match s.side.orientation_spec() {
        Orientation::Vertical => m.padding.outward + m.padding.inward,
        Orientation::Horizontal => m.padding.cross as int,
    };
    SizeModel {
        width: sp2.left + sp2.right + s.floater.size.width - padding_width,
        height: sp2.top + sp2.bottom + s.floater.size.height - padding_height,
    }
}

/// The size the recalculation rule chooses.
pub open spec fn recalculated_size(r: Recalculator, available: SizeModel, s: StateModel) -> SizeModel {
    match r {
        Recalculator::Available => available,
        Recalculator::ClampCurrent => SizeModel {
            width: vstd::math::min(s.floater.size.width as int, available.width),
            height: vstd::math::min(s.floater.size.height as int, available.height),
        },
        Recalculator::Fixed(sz) => sz@,
    }
}

/// The patch a resize produces: the recalculated size, and the floater
/// repositioned for it on the current side.
pub open spec fn resize_return(m: Resize, s: StateModel) -> ReturnModel {
    let size = recalculated_size(m.recalculator, available_size(m, s), s);
    ReturnModel {
        point: Some(placement_point(s.reference, size, s.side)),
        size: Some(size),
        side: None,
    }
}

impl Resize {
    /// The configured scalars stay within the input limit.
    pub open spec fn admissible(self) -> bool {
        self.padding.within(input_limit()) && match self.recalculator {
            Recalculator::Fixed(sz) => sz@.within(input_limit()),
            _ => true,
        }
    }

    /// Sets all three padding budgets to the same value.
    pub fn padding(self, padding: i64) -> (r: Resize)
        ensures
            r == (Resize {
                padding: Padding { outward: padding, inward: padding, cross: padding },
                ..self
            }),
    {
        Resize { padding: Padding::splat(padding), ..self }
    }

    /// Sets the padding budget along the main axis, toward the reference.
    pub fn padding_inward(self, padding: i64) -> (r: Resize)
        ensures
            r == (Resize { padding: Padding { inward: padding, ..self.padding }, ..self }),
    {
        Resize { padding: Padding { inward: padding, ..self.padding }, ..self }
    }

    /// Sets the padding budget along the main axis, away from the reference.
    pub fn padding_outward(self, padding: i64) -> (r: Resize)
        ensures
            r == (Resize { padding: Padding { outward: padding, ..self.padding }, ..self }),
    {
        Resize { padding: Padding { outward: padding, ..self.padding }, ..self }
    }

    /// Sets the padding budget along the cross axis.
    pub fn padding_cross(self, padding: i64) -> (r: Resize)
        ensures
            r == (Resize { padding: Padding { cross: padding, ..self.padding }, ..self }),
    {
        Resize { padding: Padding { cross: padding, ..self.padding }, ..self }
    }

    /// Sets both main-axis padding budgets.
    pub fn padding_main(self, padding: i64) -> (r: Resize)
        ensures
            r == (Resize {
                padding: Padding { outward: padding, inward: padding, ..self.padding },
                ..self
            }),
    {
        self.padding_outward(padding).padding_inward(padding)
    }

    /// Runs the resize against the current state.
    pub fn run(&self, state: &ModifierState) -> (r: ModifierReturn)
        requires
            state@.bounded(),
            self.admissible(),
        ensures
            r@ == resize_return(*self, state@),
    {
        let mut space = space_around(&state.floater, &state.container);
        // remove the space from the edge of the reference to the end of the
        // container: the reference occupies it, so a floater on this side can
        // never use it
        let invalid_space = match state.side {
            Side::Left => state.container.right() - state.reference.left(),
            Side::Top => state.container.bottom() - state.reference.top(),
            Side::Right => state.reference.right() - state.container.left(),
            Side::Bottom => state.reference.bottom() - state.container.top(),
        };

        let opp = state.side.opposite();
        let adjusted = space.on_side(opp) - invalid_space;
        space.set_on_side(opp, adjusted);

        let (padding_width, padding_height) = match state.side.orientation() {
            Orientation::Vertical => (
                self.padding.cross,
                self.padding.outward + self.padding.inward,
            ),
            Orientation::Horizontal => (
                self.padding.outward + self.padding.inward,
                self.padding.cross,
            ),
        };

        let available = ElemSize::new(
            space.left + space.right + state.floater.width() - padding_width,
            space.top + space.bottom + state.floater.height() - padding_height,
        );

        let new_size = match self.recalculator {
            Recalculator::Available => available,
            Recalculator::ClampCurrent => {
                let width = if state.floater.width() <= available.width {
                    state.floater.width()
                } else {
                    available.width
                };
                let height = if state.floater.height() <= available.height {
                    state.floater.height()
                } else {
                    available.height
                };
                ElemSize::new(width, height)
            },
            Recalculator::Fixed(sz) => sz,
        };

        let new_floater_pos = compute_position_from_placement(
            state.reference,
            new_size,
            state.side,
        );
        let new_floater = ElemRect::from_parts(new_floater_pos, new_size);

        ModifierReturn::new().floater(new_floater)
    }
}

} // verus!
