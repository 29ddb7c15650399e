//! The modifier pipeline: the read-only state each modifier sees, the
//! partial patch it returns, and the shared padding configuration.

pub mod arrow;
pub mod flip;
pub mod offset;
pub mod resize;
pub mod shift;

pub use arrow::arrow;
pub use flip::flip;
pub use offset::offset;
pub use resize::resize;
pub use shift::shift;

use vstd::prelude::*;

use crate::geometry::ElemRect;
use crate::geometry::ElemSize;
use crate::geometry::RectModel;
use crate::geometry::Side;
use crate::geometry::SizeModel;
use crate::geometry::Vec2;
use crate::geometry::Vec2Model;

verus! {

/// Bound on the coordinates, sizes and configuration scalars a pipeline run
/// accepts from its caller.
pub open spec fn input_limit() -> int {
    0x1_0000_0000
}

/// Bound the pipeline maintains on the floater's width and height while the
/// modifiers run.
pub open spec fn size_bound() -> int {
    0x10_0000_0000
}

/// Bound the pipeline maintains on the floater's position while the
/// modifiers run.
pub open spec fn point_bound() -> int {
    0x4_0000_0000_0000
}

/// The most modifiers a single pipeline run accepts.
pub open spec fn max_modifiers() -> int {
    0x10000
}

/// Allows each modifier to read position data.
///
/// `reference` and `container` never change across a pipeline run; `floater`
/// and `side` are the latest committed values.
#[derive(Debug, Clone, Copy, PartialEq, Eq, Structural)]
pub struct ModifierState {
    pub reference: ElemRect,
    // after initial placement, the floater has a position too
    pub floater: ElemRect,
    pub container: ElemRect,
    pub side: Side,
}

/// Mathematical model of a [`ModifierState`] over unbounded integers.
pub struct StateModel {
    pub reference: RectModel,
    pub floater: RectModel,
    pub container: RectModel,
    pub side: Side,
}

impl View for ModifierState {
    type V = StateModel;

    open spec fn view(&self) -> StateModel {
        StateModel {
            reference: self.reference@,
            floater: self.floater@,
            container: self.container@,
            side: self.side,
        }
    }
}

impl StateModel {
    /// The working bounds every modifier relies on: reference and container
    /// within the input limit, the floater within the wider bounds the
    /// pipeline maintains for it.
    pub open spec fn bounded(self) -> bool {
        &&& self.reference.within(input_limit())
        &&& self.container.within(input_limit())
        &&& self.floater.size.within(size_bound())
        &&& self.floater.point.within(point_bound())
    }

    /// The merge of a modifier's partial patch into the state: any field the
    /// patch leaves unset keeps its current value.
    pub open spec fn updated_with(self, r: ReturnModel) -> StateModel {
        StateModel {
            reference: self.reference,
            container: self.container,
            floater: RectModel {
                point: match r.point {
                    Some(p) => p,
                    None => self.floater.point,
                },
                size: match r.size {
                    Some(s) => s,
                    None => self.floater.size,
                },
            },
            side: match r.side {
                Some(s) => s,
                None => self.side,
            },
        }
    }
}

impl ModifierState {
    pub fn new(reference: ElemRect, floater: ElemRect, container: ElemRect, side: Side) -> (r:
        ModifierState)
        ensures
            r@ == (StateModel {
                reference: reference@,
                floater: floater@,
                container: container@,
                side,
            }),
    {
        ModifierState { reference, floater, container, side }
    }

    /// Merges a modifier's patch into the state.
    pub fn update_with(&mut self, res: &ModifierReturn)
        ensures
            final(self)@ == old(self)@.updated_with(res@),
    {
        if let Some(point) = res.point {
            self.floater.set_point(point);
        }
        if let Some(size) = res.size {
            self.floater.set_size(size);
        }
        if let Some(side) = res.side {
            self.side = side;
        }
    }
}

/// A modifier's return value: optionally a new point, optionally a new size,
/// optionally a new side. Any field left unset leaves the corresponding part
/// of the state unchanged.
#[derive(Debug, Clone, Copy, PartialEq, Eq, Structural)]
pub struct ModifierReturn {
    pub point: Option<Vec2>,
    pub size: Option<ElemSize>,
    pub side: Option<Side>,
}

/// Mathematical model of a [`ModifierReturn`].
pub struct ReturnModel {
    pub point: Option<Vec2Model>,
    pub size: Option<SizeModel>,
    pub side: Option<Side>,
}

impl View for ModifierReturn {
    type V = ReturnModel;

    open spec fn view(&self) -> ReturnModel {
        ReturnModel {
            point: match self.point {
                Some(p) => Some(p@),
                None => None,
            },
            size: match self.size {
                Some(s) => Some(s@),
                None => None,
            },
            side: self.side,
        }
    }
}

/// The patch that changes nothing.
pub open spec fn empty_return() -> ReturnModel {
    ReturnModel { point: None, size: None, side: None }
}

impl ModifierReturn {
    pub fn new() -> (r: ModifierReturn)
        ensures
            r@ == empty_return(),
    {
        ModifierReturn { point: None, size: None, side: None }
    }

    pub fn point(self, point: Vec2) -> (r: ModifierReturn)
        ensures
            r@ == (ReturnModel { point: Some(point@), ..self@ }),
    {
        ModifierReturn { point: Some(point), ..self }
    }

    pub fn point_xy(self, x: i64, y: i64) -> (r: ModifierReturn)
        ensures
            r@ == (ReturnModel { point: Some(Vec2Model { x: x as int, y: y as int }), ..self@ }),
    {
        self.point(Vec2::new(x, y))
    }

    pub fn size(self, size: ElemSize) -> (r: ModifierReturn)
        ensures
            r@ == (ReturnModel { size: Some(size@), ..self@ }),
    {
        ModifierReturn { size: Some(size), ..self }
    }

    pub fn size_wh(self, width: i64, height: i64) -> (r: ModifierReturn)
        ensures
            r@ == (ReturnModel {
                size: Some(SizeModel { width: width as int, height: height as int }),
                ..self@
            }),
    {
        self.size(ElemSize::new(width, height))
    }

    pub fn side(self, side: Side) -> (r: ModifierReturn)
        ensures
            r@ == (ReturnModel { side: Some(side), ..self@ }),
    {
        ModifierReturn { side: Some(side), ..self }
    }

    /// Sets both the point and the size from a whole rectangle.
    pub fn floater(self, rect: ElemRect) -> (r: ModifierReturn)
        ensures
            r@ == (ReturnModel { point: Some(rect@.point), size: Some(rect@.size), ..self@ }),
    {
        self.point(rect.point()).size(rect.size())
    }
}

/// Independent spacing budgets for the modifiers.
///
/// `outward` and `inward` apply along the placement (main) axis, `cross`
/// along the perpendicular axis.
#[derive(Debug, Clone, Copy, PartialEq, Eq, Structural)]
pub struct Padding {
    pub outward: i64,
    pub inward: i64,
    pub cross: i64,
}

impl Padding {
    /// The same value for all three budgets.
    pub fn splat(value: i64) -> (r: Padding)
        ensures
            r == (Padding { outward: value, inward: value, cross: value }),
    {
        Padding { outward: value, inward: value, cross: value }
    }

    /// All three budgets lie within `[-b, b]`.
    pub open spec fn within(self, b: int) -> bool {
        &&& -b <= self.outward <= b
        &&& -b <= self.inward <= b
        &&& -b <= self.cross <= b
    }
}

impl Default for Padding {
    /// All three budgets zero.
    fn default() -> (r: Padding)
        ensures
            r == (Padding { outward: 0i64, inward: 0i64, cross: 0i64 }),
    {
        Padding { outward: 0, inward: 0, cross: 0 }
    }
}

/// One configured placement-adjustment step.
#[derive(Debug, Clone, Copy, PartialEq, Eq, Structural)]
pub enum Modifier {
    /// Moves the floater outward from the reference by a fixed amount.
    Offset { amount: i64 },
    /// Corrects cross-axis overflow past the container.
    Shift(shift::Shift),
    /// Moves the floater to another side when the current one does not fit.
    Flip(flip::Flip),
    /// Recomputes the floater's size from the available space.
    Resize(resize::Resize),
    /// Reports where a pointer sub-element should sit.
    Arrow(arrow::Arrow),
}

impl Modifier {
    /// The configured scalars stay within the input limit.
    pub open spec fn admissible(self) -> bool {
        match self {
            Modifier::Offset { amount } => -input_limit() <= amount <= input_limit(),
            Modifier::Shift(m) => m.admissible(),
            Modifier::Flip(m) => m.admissible(),
            Modifier::Resize(m) => m.admissible(),
            Modifier::Arrow(m) => m.admissible(),
        }
    }

    /// The patch this modifier produces on the given state.
    pub open spec fn return_model(self, s: StateModel) -> ReturnModel {
        match self {
            Modifier::Offset { amount } => offset::offset_return(amount as int, s),
            Modifier::Shift(m) => shift::shift_return(m, s),
            Modifier::Flip(m) => flip::flip_return(m, s),
            Modifier::Resize(m) => resize::resize_return(m, s),
            Modifier::Arrow(_) => empty_return(),
        }
    }

    /// The state after this modifier's patch is merged in.
    pub open spec fn applied(self, s: StateModel) -> StateModel {
        s.updated_with(self.return_model(s))
    }

    /// Runs the modifier against the current state.
    pub fn run(&self, state: &ModifierState) -> (r: ModifierReturn)
        requires
            state@.bounded(),
            self.admissible(),
        ensures
            r@ == self.return_model(state@),
    {
        match self {
            Modifier::Offset { amount } => offset::run(*amount, state),
            Modifier::Shift(m) => m.run(state),
            Modifier::Flip(m) => m.run(state),
            Modifier::Resize(m) => m.run(state),
            Modifier::Arrow(m) => m.run(state),
        }
    }
}

impl core::convert::From<shift::Shift> for Modifier {
    fn from(m: shift::Shift) -> (r: Modifier) {
        Modifier::Shift(m)
    }
}

impl vstd::std_specs::convert::FromSpecImpl<shift::Shift> for Modifier {
    open spec fn obeys_from_spec() -> bool {
        true
    }

    open spec fn from_spec(m: shift::Shift) -> Modifier {
        Modifier::Shift(m)
    }
}

impl core::convert::From<flip::Flip> for Modifier {
    fn from(m: flip::Flip) -> (r: Modifier) {
        Modifier::Flip(m)
    }
}

impl vstd::std_specs::convert::FromSpecImpl<flip::Flip> for Modifier {
    open spec fn obeys_from_spec() -> bool {
        true
    }

    open spec fn from_spec(m: flip::Flip) -> Modifier {
        Modifier::Flip(m)
    }
}

impl core::convert::From<resize::Resize> for Modifier {
    fn from(m: resize::Resize) -> (r: Modifier) {
        Modifier::Resize(m)
    }
}

impl vstd::std_specs::convert::FromSpecImpl<resize::Resize> for Modifier {
    open spec fn obeys_from_spec() -> bool {
        true
    }

    open spec fn from_spec(m: resize::Resize) -> Modifier {
        Modifier::Resize(m)
    }
}

impl core::convert::From<arrow::Arrow> for Modifier {
    fn from(m: arrow::Arrow) -> (r: Modifier) {
        Modifier::Arrow(m)
    }
}

impl vstd::std_specs::convert::FromSpecImpl<arrow::Arrow> for Modifier {
    open spec fn obeys_from_spec() -> bool {
        true
    }

    open spec fn from_spec(m: arrow::Arrow) -> Modifier {
        Modifier::Arrow(m)
    }
}

/// An ordered list of modifiers; later modifiers see the effects of earlier
/// ones.
#[derive(Debug)]
pub struct Modifiers(pub Vec<Modifier>);

impl View for Modifiers {
    type V = Seq<Modifier>;

    open spec fn view(&self) -> Seq<Modifier> {
        self.0@
    }
}

impl Modifiers {
    pub fn new() -> (r: Modifiers)
        ensures
            r@ == Seq::<Modifier>::empty(),
    {
        Modifiers(Vec::new())
    }

    pub fn push(&mut self, modifier: Modifier)
        ensures
            final(self)@ == old(self)@.push(modifier),
    {
        self.0.push(modifier)
    }
}

impl Default for Modifiers {
    /// An empty list.
    fn default() -> (r: Modifiers)
        ensures
            r@ == Seq::<Modifier>::empty(),
    {
        Modifiers(Vec::new())
    }
}

/// Every modifier in the list keeps its configuration within the input
/// limit.
pub open spec fn all_admissible(mods: Seq<Modifier>) -> bool {
    forall|i: int| 0 <= i < mods.len() ==> #[trigger] mods[i].admissible()
}

/// Base bound on the floater position that every non-offset modifier
/// re-establishes on its own; the pipeline's position bound grows from it by
/// at most the input limit per step.
pub open spec fn working_base() -> int {
    0x100_0000_0000
}

/// The initial placement produces a floater position within the working
/// base.
pub proof fn lemma_placement_bounds(reference: RectModel, size: SizeModel, side: Side)
    requires
        reference.within(input_limit()),
        size.within(size_bound()),
    ensures
        crate::placement_point(reference, size, side).within(2 * input_limit() + size_bound()),
{
}

/// One modifier step keeps the floater size within the size bound, grows the
/// floater position bound by at most the input limit, and never touches the
/// reference or the container.
pub proof fn lemma_step_bounds(m: Modifier, s: StateModel, p: int)
    requires
        m.admissible(),
        s.reference.within(input_limit()),
        s.container.within(input_limit()),
        s.floater.size.within(size_bound()),
        s.floater.point.within(p),
        working_base() <= p,
    ensures
        m.applied(s).reference == s.reference,
        m.applied(s).container == s.container,
        m.applied(s).floater.size.within(size_bound()),
        m.applied(s).floater.point.within(p + input_limit()),
{
    match m {
        Modifier::Offset { amount } => {},
        Modifier::Shift(sh) => {},
        Modifier::Flip(f) => {
            let cands = flip::candidates(f, s.side);
            match flip::first_acceptable_from(f, s, cands, 0) {
                Some(c) => lemma_placement_bounds(s.reference, s.floater.size, c),
                None => {
                    match f.fallback_method {
                        flip::FallbackMethod::Initial => {},
                        flip::FallbackMethod::BestFit => {
                            let b = flip::best_until(f, s, cands, cands.len() as int);
                            lemma_placement_bounds(s.reference, s.floater.size, b);
                        },
                    }
                },
            }
        },
        Modifier::Resize(rz) => {
            let size = resize::recalculated_size(rz.recalculator, resize::available_size(rz, s), s);
            lemma_placement_bounds(s.reference, size, s.side);
        },
        Modifier::Arrow(a) => {},
    }
}

} // verus!
