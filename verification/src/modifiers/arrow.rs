//! Arrow: computes where a pointer sub-element should sit along the
//! floater's main axis so it stays as close as possible to centred on the
//! reference without leaving the floater.

use vstd::prelude::*;

use crate::geometry::clamp;
use crate::geometry::clamp_i64;
use crate::geometry::half;
use crate::modifiers::empty_return;
use crate::modifiers::input_limit;
use crate::modifiers::ModifierReturn;
use crate::modifiers::ModifierState;
use crate::modifiers::StateModel;

verus! {

/// Positions an arrow of the given length along the floater's main axis.
///
/// The arrow never moves the floater itself: its patch is empty, and its
/// result is reported separately as an [`ArrowData`].
#[derive(Debug, Clone, Copy, PartialEq, Eq, Structural)]
pub struct Arrow {
    /// The length of the arrow along the side of the floater it sits on.
    pub inline_len: i64,
    /// How far the arrow must stay from the corners of the floater.
    pub padding: i64,
}

/// An arrow modifier for an arrow of length `inline_len`, with no padding.
pub fn arrow(inline_len: i64) -> (r: Arrow)
    ensures
        r == (Arrow { inline_len, padding: 0i64 }),
{
    Arrow { inline_len, padding: 0 }
}

/// Where the arrow should sit, relative to the floater.
#[derive(Debug, Clone, Copy, PartialEq, Eq, Structural)]
pub struct ArrowData {
    pub offset: i64,
    pub center_offset: i64,
}

/// Mathematical model of an [`ArrowData`] over unbounded integers.
pub struct ArrowDataModel {
    pub offset: int,
    pub center_offset: int,
}

impl View for ArrowData {
    type V = ArrowDataModel;

    open spec fn view(&self) -> ArrowDataModel {
        ArrowDataModel { offset: self.offset as int, center_offset: self.center_offset as int }
    }
}

impl ArrowData {
    /// Creates an [`ArrowData`] holding zeroes, to be overwritten with the
    /// data a pipeline run reports.
    pub fn new() -> (r: ArrowData)
        ensures
            r@ == (ArrowDataModel { offset: 0, center_offset: 0 }),
    {
        ArrowData { offset: 0, center_offset: 0 }
    }

    /// The offset of the arrow relative to the top-left of the floater
    /// element, along the floater's main axis.
    pub fn offset(&self) -> (r: i64)
        ensures
            r == self@.offset,
    {
        self.offset
    }

    /// How far the arrow sits from its ideal position (centred on the
    /// reference element). Never negative.
    pub fn center_offset(&self) -> (r: i64)
        ensures
            r == self@.center_offset,
    {
        self.center_offset
    }
}

/// The ideal centre for the arrow: the midpoint of the floater's extent
/// along its main axis.
pub open spec fn ideal_center(m: Arrow, s: StateModel) -> int {
    half(s.floater.size.dim_main(s.side))
}

/// The furthest the arrow's centre may move from the ideal centre: the slack
/// left once the arrow's half-length and the padding are set aside, floored
/// at zero so the clamp interval below is never inverted.
pub open spec fn max_shift(m: Arrow, s: StateModel) -> int {
    vstd::math::max(0, ideal_center(m, s) - half(m.inline_len as int) - m.padding)
}

/// The data an arrow modifier reports: how far the floater's centre has
/// shifted from the reference's centre is clamped to the admissible range,
/// and the arrow compensates by the clamped amount.
pub open spec fn arrow_data_model(m: Arrow, s: StateModel) -> ArrowDataModel {
    let shifted_amount = s.floater.center().coord_main(s.side) - s.reference.center().coord_main(
        s.side,
    );
    let arrow_shift = clamp(shifted_amount, -max_shift(m, s), max_shift(m, s));
    let skid = ideal_center(m, s) - arrow_shift;
    ArrowDataModel {
        offset: skid - half(m.inline_len as int),
        center_offset: vstd::math::abs(ideal_center(m, s) - skid) as int,
    }
}

impl Arrow {
    /// The configured scalars stay within the input limit.
    pub open spec fn admissible(self) -> bool {
        &&& -input_limit() <= self.inline_len <= input_limit()
        &&& -input_limit() <= self.padding <= input_limit()
    }

    /// How far the arrow must stay from the corners of the floater.
    pub fn padding(self, padding: i64) -> (r: Arrow)
        ensures
            r == (Arrow { padding, ..self }),
    {
        Arrow { padding, ..self }
    }

    /// Computes the arrow's position against the current state.
    ///
    /// Coordinates first treat the arrow as a point at its centre; the
    /// reported offset then names the arrow's top-left corner.
    pub fn compute(&self, state: &ModifierState) -> (d: ArrowData)
        requires
            state@.bounded(),
            self.admissible(),
        ensures
            d@ == arrow_data_model(*self, state@),
    {
        let ideal = state.floater.size().dim_main(state.side) / 2;

        let shifted_amount = state.floater.center().coord_main(state.side)
            - state.reference.center().coord_main(state.side);

        // saturate at 0 in case the padding exceeds the floater size, so the
        // clamp interval cannot invert
        let mut max = ideal - self.inline_len / 2 - self.padding;
        if max < 0 {
            max = 0;
        }
        let arrow_shift = clamp_i64(shifted_amount, -max, max);

        let skid = ideal - arrow_shift;

        let center_offset = if ideal - skid >= 0 {
            ideal - skid
        } else {
            -(ideal - skid)
        };
        ArrowData { offset: skid - self.inline_len / 2, center_offset }
    }

    /// Runs the arrow against the current state: the floater itself never
    /// moves.
    pub fn run(&self, state: &ModifierState) -> (r: ModifierReturn)
        ensures
            r@ == empty_return(),
    {
        ModifierReturn::new()
    }
}

/// For a nonnegative arrow length, padding and floater extent, the reported
/// distance from the ideal centre always lies in `[0, ideal centre]`.
pub proof fn lemma_arrow_center_offset_range(m: Arrow, s: StateModel)
    requires
        m.inline_len >= 0,
        m.padding >= 0,
        s.floater.size.dim_main(s.side) >= 0,
    ensures
        0 <= arrow_data_model(m, s).center_offset,
        arrow_data_model(m, s).center_offset <= ideal_center(m, s),
{
}

/// When the padding is large enough that the admissible shift saturates to
/// zero, the reported offset ignores the misalignment entirely: the arrow
/// sits at the ideal centre, less half its own length.
pub proof fn lemma_arrow_saturated_offset(m: Arrow, s: StateModel)
    requires
        max_shift(m, s) == 0,
    ensures
        arrow_data_model(m, s).offset == ideal_center(m, s) - half(m.inline_len as int),
        arrow_data_model(m, s).center_offset == 0,
{
}

} // verus!
