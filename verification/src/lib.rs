//! Computes the on-screen position of a "floater" element (a tooltip, popover
//! or dropdown) relative to a "reference" element, keeping it visible inside a
//! "container" rectangle. An ordered list of modifiers (offset, shift, flip,
//! resize, arrow) adjusts the initial placement.
//!
//! All coordinates are plain signed integers in one shared coordinate space;
//! positive `x` goes right and positive `y` goes down. Halving truncates
//! toward zero.

pub mod geometry;
pub mod modifiers;
pub mod space;

use vstd::prelude::*;

verus! {

use crate::geometry::half;
use crate::geometry::ElemRect;
use crate::geometry::ElemSize;
use crate::geometry::RectModel;
use crate::geometry::Side;
use crate::geometry::SizeModel;
use crate::geometry::Vec2;
use crate::geometry::Vec2Model;
use crate::modifiers::all_admissible;
use crate::modifiers::arrow::arrow_data_model;
use crate::modifiers::arrow::ArrowData;
use crate::modifiers::arrow::ArrowDataModel;
use crate::modifiers::input_limit;
use crate::modifiers::lemma_step_bounds;
use crate::modifiers::max_modifiers;
use crate::modifiers::point_bound;
use crate::modifiers::size_bound;
use crate::modifiers::working_base;
use crate::modifiers::Modifier;
use crate::modifiers::Modifiers;
use crate::modifiers::ModifierState;
use crate::modifiers::StateModel;

/// The initial point for a floater of the given size on the given side of
/// the reference, before any modifier runs: centred along the side, flush
/// against it on the perpendicular axis.
pub open spec fn placement_point(reference: RectModel, size: SizeModel, side: Side) -> Vec2Model {
    Vec2Model {
        x: match side {
            Side::Top | Side::Bottom => reference.center().x - half(size.width),
            Side::Left => reference.left() - size.width,
            Side::Right => reference.right(),
        },
        y: match side {
            Side::Left | Side::Right => reference.center().y - half(size.height),
            Side::Top => reference.top() - size.height,
            Side::Bottom => reference.bottom(),
        },
    }
}

/// Computes the required position of the floater given only its side and no
/// modifiers.
///
/// This is intended to only be used by modifiers - use [`compute_position`]
/// otherwise.
pub fn compute_position_from_placement(reference: ElemRect, floater: ElemSize, side: Side) -> (r:
    Vec2)
    requires
        reference@.within(input_limit()),
        floater@.within(size_bound()),
    ensures
        r@ == placement_point(reference@, floater@, side),
{
    let x = match side {
        Side::Top | Side::Bottom => reference.center().x - floater.width / 2,
        Side::Left => reference.left() - floater.width,
        Side::Right => reference.right(),
    };

    let y = match side {
        Side::Left | Side::Right => reference.center().y - floater.height / 2,
        Side::Top => reference.top() - floater.height,
        Side::Bottom => reference.bottom(),
    };

    Vec2::new(x, y)
}

/// How a pipeline run starts: the reference, the floater at its initial
/// placement on the chosen side, and the container.
pub open spec fn initial_state(
    reference: RectModel,
    floater: SizeModel,
    container: RectModel,
    side: Side,
) -> StateModel {
    StateModel {
        reference,
        floater: RectModel { point: placement_point(reference, floater, side), size: floater },
        container,
        side,
    }
}

/// The state after the first `n` modifiers have been applied in order.
pub open spec fn pipeline_state_until(mods: Seq<Modifier>, s: StateModel, n: int) -> StateModel
    decreases n,
{
    if n <= 0 {
        s
    } else {
        mods[n - 1].applied(pipeline_state_until(mods, s, n - 1))
    }
}

/// The state after every modifier has been applied in order.
pub open spec fn pipeline_state(mods: Seq<Modifier>, s: StateModel) -> StateModel {
    pipeline_state_until(mods, s, mods.len() as int)
}

/// The arrow data reported after the first `n` modifiers: the data of the
/// latest arrow step, computed against the state that step saw.
pub open spec fn pipeline_arrow_until(mods: Seq<Modifier>, s: StateModel, n: int) -> Option<
    ArrowDataModel,
>
    decreases n,
{
    if n <= 0 {
        None
    } else {
        match mods[n - 1] {
            Modifier::Arrow(a) => Some(arrow_data_model(a, pipeline_state_until(mods, s, n - 1))),
            _ => pipeline_arrow_until(mods, s, n - 1),
        }
    }
}

/// The arrow data reported after every modifier has run.
pub open spec fn pipeline_arrow(mods: Seq<Modifier>, s: StateModel) -> Option<ArrowDataModel> {
    pipeline_arrow_until(mods, s, mods.len() as int)
}

/// The model of an optional arrow result.
pub open spec fn arrow_view(a: Option<ArrowData>) -> Option<ArrowDataModel> {
    match a {
        Some(d) => Some(d@),
        None => None,
    }
}

/// The placement options for a pipeline run: the initial side and the
/// ordered modifier list.
#[derive(Debug)]
pub struct PositionOpts {
    pub side: Side,
    pub modifiers: Modifiers,
}

impl PositionOpts {
    pub fn new() -> (r: PositionOpts)
        ensures
            r.side == Side::Bottom,
            r.modifiers@ == Seq::<Modifier>::empty(),
    {
        PositionOpts { side: Side::Bottom, modifiers: Modifiers::new() }
    }

    /// Chooses the initial placement side.
    pub fn with_side(self, side: Side) -> (r: PositionOpts)
        ensures
            r.side == side,
            r.modifiers@ == self.modifiers@,
    {
        PositionOpts { side, ..self }
    }

    /// Appends a modifier; later modifiers see the effects of earlier ones.
    pub fn add_modifier(self, modifier: Modifier) -> (r: PositionOpts)
        ensures
            r.side == self.side,
            r.modifiers@ == self.modifiers@.push(modifier),
    {
        let mut opts = self;
        opts.modifiers.push(modifier);
        opts
    }
}

impl Default for PositionOpts {
    /// Placement below the reference, with no modifiers.
    fn default() -> (r: PositionOpts)
        ensures
            r.side == Side::Bottom,
            r.modifiers@ == Seq::<Modifier>::empty(),
    {
        PositionOpts::new()
    }
}

/// The result of a pipeline run: the floater's final rectangle and side, and
/// the data of the latest arrow modifier, if any ran.
#[derive(Debug, Clone, Copy, PartialEq, Eq, Structural)]
pub struct ComputedPosition {
    pub floater: ElemRect,
    pub side: Side,
    pub arrow: Option<ArrowData>,
}

/// Computes the floater's position: the initial placement on the chosen
/// side, folded through the configured modifiers in order.
///
/// `reference` should be relative to the nearest scrolling context; the
/// returned position is relative to the same context. `container` is the
/// section of the scrolling context that is visible.
pub fn compute_position(
    reference: ElemRect,
    floater: ElemSize,
    container: ElemRect,
    opts: PositionOpts,
) -> (r: ComputedPosition)
    requires
        reference@.within(input_limit()),
        container@.within(input_limit()),
        floater@.within(input_limit()),
        all_admissible(opts.modifiers@),
        opts.modifiers@.len() <= max_modifiers(),
    ensures
        r.floater@ == pipeline_state(
            opts.modifiers@,
            initial_state(reference@, floater@, container@, opts.side),
        ).floater,
        r.side == pipeline_state(
            opts.modifiers@,
            initial_state(reference@, floater@, container@, opts.side),
        ).side,
        arrow_view(r.arrow) == pipeline_arrow(
            opts.modifiers@,
            initial_state(reference@, floater@, container@, opts.side),
        ),
{
    let point = compute_position_from_placement(reference, floater, opts.side);

    let mut state = ModifierState::new(
        reference,
        ElemRect::from_parts(point, floater),
        container,
        opts.side,
    );
    let mut arrow_data: Option<ArrowData> = None;
    let ghost init = state@;

    let mods = opts.modifiers.0;
    let n = mods.len();
    let mut i: usize = 0;
    while i < n
        invariant
            n == mods@.len(),
            0 <= i <= n,
            n <= max_modifiers(),
            all_admissible(mods@),
            reference@.within(input_limit()),
            container@.within(input_limit()),
            state@ == pipeline_state_until(mods@, init, i as int),
            arrow_view(arrow_data) == pipeline_arrow_until(mods@, init, i as int),
            state@.reference == reference@,
            state@.container == container@,
            state@.floater.size.within(size_bound()),
            state@.floater.point.within(working_base() + i * input_limit()),
        decreases n - i,
    {
        let m = mods[i];
        proof {
            assert(mods@[i as int].admissible());
            lemma_step_bounds(m, state@, working_base() + i * input_limit());
            assert(working_base() + i * input_limit() + input_limit() <= point_bound());
        }
        if let Modifier::Arrow(a) = &m {
            arrow_data = Some(a.compute(&state));
        }
        let res = m.run(&state);
        state.update_with(&res);
        i = i + 1;
    }

    ComputedPosition { floater: state.floater, side: state.side, arrow: arrow_data }
}

} // verus!
