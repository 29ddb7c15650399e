//! Flip: chooses the best of several candidate sides to avoid overflow
//! along the main axis (and optionally the cross axis).

use vstd::prelude::*;

use crate::compute_position_from_placement;
use crate::geometry::ElemRect;
use crate::geometry::RectModel;
use crate::geometry::Side;
use crate::modifiers::empty_return;
use crate::modifiers::input_limit;
use crate::modifiers::ModifierReturn;
use crate::modifiers::ModifierState;
use crate::modifiers::Padding;
use crate::modifiers::ReturnModel;
use crate::modifiers::StateModel;
use crate::placement_point;
use crate::space::space_around;
use crate::space::space_around_model;
use crate::space::SpaceModel;

verus! {

/// What flip commits to when no candidate side fully fits.
#[derive(Debug, Clone, Copy, PartialEq, Eq, Structural)]
pub enum FallbackMethod {
    /// Go back to the initial side if none fully fit.
    Initial,
    /// Choose the best fitting side if none fully fit.
    BestFit,
}

impl Default for FallbackMethod {
    /// The default fallback chooses the best fitting side.
    fn default() -> (r: FallbackMethod)
        ensures
            r == FallbackMethod::BestFit,
    {
        FallbackMethod::BestFit
    }
}

/// Flips the floater to another side of the reference when the current side
/// has insufficient clearance.
#[derive(Debug, Clone, Copy, PartialEq, Eq, Structural)]
pub struct Flip {
    pub flip_main: bool,
    pub flip_cross: bool,
    pub check_main_axis: bool,
    pub check_cross_axis: bool,
    pub padding: Padding,
    pub fallback_method: FallbackMethod,
}

/// A flip modifier that considers the opposite side only, checks the main
/// axis only, and falls back to the best fitting side.
pub fn flip() -> (r: Flip)
    ensures
        r == (Flip {
            flip_main: true,
            flip_cross: false,
            check_main_axis: true,
            check_cross_axis: false,
            padding: Padding { outward: 0i64, inward: 0i64, cross: 0i64 },
            fallback_method: FallbackMethod::BestFit,
        }),
{
    Flip {
        flip_main: true,
        flip_cross: false,
        check_main_axis: true,
        check_cross_axis: false,
        padding: Padding::splat(0),
        fallback_method: FallbackMethod::BestFit,
    }
}

/// The candidate sides flip evaluates, in priority order: the current side,
/// then its opposite when flipping along the main axis is enabled, then its
/// two adjacent sides when flipping along the cross axis is enabled.
pub open spec fn candidates(m: Flip, side: Side) -> Seq<Side> {
    let c = seq![side];
    let c = if m.flip_main {
        c.push(side.opposite_spec())
    } else {
        c
    };
    if m.flip_cross {
        c + seq![side.anticlockwise_spec(), side.clockwise_spec()]
    } else {
        c
    }
}

/// The hypothetical floater rectangle for a candidate side: the current size
/// placed afresh on that side.
pub open spec fn candidate_rect(s: StateModel, cand: Side) -> RectModel {
    RectModel { point: placement_point(s.reference, s.floater.size, cand), size: s.floater.size }
}

/// The clearances of the hypothetical rectangle for a candidate side.
pub open spec fn candidate_space(s: StateModel, cand: Side) -> SpaceModel {
    space_around_model(candidate_rect(s, cand), s.container)
}

/// Whether a candidate side fits: enough clearance on the candidate side
/// itself (when the main axis is checked) and on both its adjacent sides
/// (when the cross axis is checked).
pub open spec fn acceptable(m: Flip, s: StateModel, cand: Side) -> bool {
    let sp = candidate_space(s, cand);
    !((m.check_main_axis && sp.on_side(cand) < m.padding.outward) || (m.check_cross_axis && (
    sp.on_side(cand.anticlockwise_spec()) < m.padding.cross || sp.on_side(cand.clockwise_spec())
        < m.padding.cross)))
}

/// The negative part of a clearance: the amount of overflow it represents,
/// or zero.
pub open spec fn neg_part(v: int) -> int {
    if v < 0 {
        v
    } else {
        0
    }
}

/// A rejected candidate's score: the sum of its negative clearances over the
/// sides checked for it. Always nonpositive; closer to zero is better.
pub open spec fn score(m: Flip, s: StateModel, cand: Side) -> int {
    let sp = candidate_space(s, cand);
    (if m.check_main_axis {
        neg_part(sp.on_side(cand))
    } else {
        0
    }) + (if m.check_cross_axis {
        neg_part(sp.on_side(cand.anticlockwise_spec())) + neg_part(
            sp.on_side(cand.clockwise_spec()),
        )
    } else {
        0
    })
}

/// The first acceptable candidate at or after index `i`, in priority order.
pub open spec fn first_acceptable_from(m: Flip, s: StateModel, cands: Seq<Side>, i: int) -> Option<
    Side,
>
    decreases cands.len() - i,
{
    if i < 0 || i >= cands.len() {
        None
    } else if acceptable(m, s, cands[i]) {
        Some(cands[i])
    } else {
        first_acceptable_from(m, s, cands, i + 1)
    }
}

/// The best-scoring candidate among the first `n`, ties resolved in favour
/// of the earlier (higher-priority) candidate.
pub open spec fn best_until(m: Flip, s: StateModel, cands: Seq<Side>, n: int) -> Side
    decreases n,
{
    if n <= 1 {
        cands[0]
    } else {
        let prev = best_until(m, s, cands, n - 1);
        if score(m, s, cands[n - 1]) > score(m, s, prev) {
            cands[n - 1]
        } else {
            prev
        }
    }
}

/// The patch a flip produces: the first acceptable candidate is committed;
/// with none acceptable, the fallback method decides.
pub open spec fn flip_return(m: Flip, s: StateModel) -> ReturnModel {
    let cands = candidates(m, s.side);
    match first_acceptable_from(m, s, cands, 0) {
        Some(c) => ReturnModel {
            point: Some(placement_point(s.reference, s.floater.size, c)),
            size: None,
            side: Some(c),
        },
        None => match m.fallback_method {
            FallbackMethod::Initial => empty_return(),
            FallbackMethod::BestFit => {
                let b = best_until(m, s, cands, cands.len() as int);
                ReturnModel {
                    point: Some(placement_point(s.reference, s.floater.size, b)),
                    size: None,
                    side: Some(b),
                }
            },
        },
    }
}

impl Flip {
    /// The configured scalars stay within the input limit.
    pub open spec fn admissible(self) -> bool {
        self.padding.within(input_limit())
    }

    /// Whether to flip to the opposite side of the reference if no space is
    /// left.
    pub fn flip_main(self, b: bool) -> (r: Flip)
        ensures
            r == (Flip { flip_main: b, ..self }),
    {
        Flip { flip_main: b, ..self }
    }

    /// Whether to flip to an adjacent side of the reference if the initial
    /// and opposite sides do not fit.
    pub fn flip_cross(self, b: bool) -> (r: Flip)
        ensures
            r == (Flip { flip_cross: b, ..self }),
    {
        Flip { flip_cross: b, ..self }
    }

    /// Whether a candidate needs clearance on the candidate side itself.
    pub fn check_main_axis(self, b: bool) -> (r: Flip)
        ensures
            r == (Flip { check_main_axis: b, ..self }),
    {
        Flip { check_main_axis: b, ..self }
    }

    /// Whether a candidate needs clearance on its two adjacent sides.
    pub fn check_cross_axis(self, b: bool) -> (r: Flip)
        ensures
            r == (Flip { check_cross_axis: b, ..self }),
    {
        Flip { check_cross_axis: b, ..self }
    }

    /// Which fallback method to use if no sides can fit the floater.
    pub fn fallback_method(self, f: FallbackMethod) -> (r: Flip)
        ensures
            r == (Flip { fallback_method: f, ..self }),
    {
        Flip { fallback_method: f, ..self }
    }

    /// Sets all three padding budgets to the same value.
    pub fn padding(self, padding: i64) -> (r: Flip)
        ensures
            r == (Flip {
                padding: Padding { outward: padding, inward: padding, cross: padding },
                ..self
            }),
    {
        Flip { padding: Padding::splat(padding), ..self }
    }

    /// Sets the padding budget along the main axis, toward the reference.
    pub fn padding_inward(self, padding: i64) -> (r: Flip)
        ensures
            r == (Flip { padding: Padding { inward: padding, ..self.padding }, ..self }),
    {
        Flip { padding: Padding { inward: padding, ..self.padding }, ..self }
    }

    /// Sets the padding budget along the main axis, away from the reference.
    pub fn padding_outward(self, padding: i64) -> (r: Flip)
        ensures
            r == (Flip { padding: Padding { outward: padding, ..self.padding }, ..self }),
    {
        Flip { padding: Padding { outward: padding, ..self.padding }, ..self }
    }

    /// Sets the padding budget along the cross axis.
    pub fn padding_cross(self, padding: i64) -> (r: Flip)
        ensures
            r == (Flip { padding: Padding { cross: padding, ..self.padding }, ..self }),
    {
        Flip { padding: Padding { cross: padding, ..self.padding }, ..self }
    }

    /// Sets both main-axis padding budgets.
    pub fn padding_main(self, padding: i64) -> (r: Flip)
        ensures
            r == (Flip {
                padding: Padding { outward: padding, inward: padding, ..self.padding },
                ..self
            }),
    {
        self.padding_outward(padding).padding_inward(padding)
    }

    /// Whether the candidate side fits, evaluated on the real state.
    fn is_acceptable(&self, state: &ModifierState, cand: Side) -> (b: bool)
        requires
            state@.bounded(),
            self.admissible(),
        ensures
            b == acceptable(*self, state@, cand),
    {
        let new_pos = compute_position_from_placement(state.reference, state.floater.size(), cand);
        let new_floater = ElemRect::from_parts(new_pos, state.floater.size());
        let sp = space_around(&new_floater, &state.container);
        let main_bad = self.check_main_axis && sp.on_side(cand) < self.padding.outward;
        let cross_bad = self.check_cross_axis && (sp.on_side(cand.anticlockwise())
            < self.padding.cross || sp.on_side(cand.clockwise()) < self.padding.cross);
        !(main_bad || cross_bad)
    }

    /// The candidate's score: its total overflow over the checked sides.
    fn candidate_score(&self, state: &ModifierState, cand: Side) -> (sc: i64)
        requires
            state@.bounded(),
            self.admissible(),
        ensures
            sc == score(*self, state@, cand),
    {
        let new_pos = compute_position_from_placement(state.reference, state.floater.size(), cand);
        let new_floater = ElemRect::from_parts(new_pos, state.floater.size());
        let sp = space_around(&new_floater, &state.container);
        let main_part = if self.check_main_axis {
            let c = sp.on_side(cand);
            if c < 0 {
                c
            } else {
                0
            }
        } else {
            0
        };
        let cross_part = if self.check_cross_axis {
            let c1 = sp.on_side(cand.anticlockwise());
            let c2 = sp.on_side(cand.clockwise());
            (if c1 < 0 {
                c1
            } else {
                0
            }) + (if c2 < 0 {
                c2
            } else {
                0
            })
        } else {
            0
        };
        main_part + cross_part
    }

    /// Runs the flip against the current state.
    pub fn run(&self, state: &ModifierState) -> (r: ModifierReturn)
        requires
            state@.bounded(),
            self.admissible(),
        ensures
            r@ == flip_return(*self, state@),
    {
        let mut cands: Vec<Side> = Vec::new();
        cands.push(state.side);
        if self.flip_main {
            cands.push(state.side.opposite());
        }
        if self.flip_cross {
            cands.push(state.side.anticlockwise());
            cands.push(state.side.clockwise());
        }
        proof {
            assert(cands@ =~= candidates(*self, state@.side));
        }

        let n = cands.len();
        let mut i: usize = 0;
        while i < n
            invariant
                state@.bounded(),
                self.admissible(),
                n == cands@.len(),
                0 <= i <= n,
                cands@ == candidates(*self, state@.side),
                first_acceptable_from(*self, state@, cands@, 0) == first_acceptable_from(
                    *self,
                    state@,
                    cands@,
                    i as int,
                ),
            decreases n - i,
        {
            let cand = cands[i];
            if self.is_acceptable(state, cand) {
                let new_pos = compute_position_from_placement(
                    state.reference,
                    state.floater.size(),
                    cand,
                );
                return ModifierReturn::new().point(new_pos).side(cand);
            }
            i = i + 1;
        }

        // no candidate had enough space
        match self.fallback_method {
            FallbackMethod::Initial => ModifierReturn::new(),
            FallbackMethod::BestFit => {
                // score the best fit by the sides that have the least amount
                // of overflow: each score is nonpositive, with the magnitude
                // indicating the total overflow
                let mut best = cands[0];
                let mut best_score = self.candidate_score(state, cands[0]);
                let mut j: usize = 1;
                while j < n
                    invariant
                        state@.bounded(),
                        self.admissible(),
                        n == cands@.len(),
                        1 <= j <= n,
                        cands@ == candidates(*self, state@.side),
                        best == best_until(*self, state@, cands@, j as int),
                        best_score == score(*self, state@, best),
                    decreases n - j,
                {
                    let sc = self.candidate_score(state, cands[j]);
                    if sc > best_score {
                        best = cands[j];
                        best_score = sc;
                    }
                    j = j + 1;
                }
                let best_point = compute_position_from_placement(
                    state.reference,
                    state.floater.size(),
                    best,
                );
                ModifierReturn::new().side(best).point(best_point)
            },
        }
    }
}

/// The best candidate among the first `n` is one of them, no candidate
/// scores strictly better, and every earlier candidate scores strictly
/// worse: ties go to the higher-priority candidate.
pub proof fn lemma_best_until_props(m: Flip, s: StateModel, cands: Seq<Side>, n: int)
    requires
        1 <= n <= cands.len(),
    ensures
        ({
            let b = best_until(m, s, cands, n);
            exists|i: int|
                0 <= i < n && cands[i] == b && (forall|j: int|
                    0 <= j < n ==> score(m, s, #[trigger] cands[j]) <= score(m, s, b)) && (
                forall|j: int| 0 <= j < i ==> score(m, s, #[trigger] cands[j]) < score(m, s, b))
        }),
    decreases n,
{
    let b = best_until(m, s, cands, n);
    if n == 1 {
        assert(0 <= 0 < n && cands[0] == b && (forall|j: int|
            0 <= j < n ==> score(m, s, #[trigger] cands[j]) <= score(m, s, b)) && (forall|j: int|
            0 <= j < 0 ==> score(m, s, #[trigger] cands[j]) < score(m, s, b)));
    } else {
        lemma_best_until_props(m, s, cands, n - 1);
        let prev = best_until(m, s, cands, n - 1);
        let ip = choose|i: int|
            0 <= i < n - 1 && cands[i] == prev && (forall|j: int|
                0 <= j < n - 1 ==> score(m, s, #[trigger] cands[j]) <= score(m, s, prev)) && (
            forall|j: int| 0 <= j < i ==> score(m, s, #[trigger] cands[j]) < score(m, s, prev));
        if score(m, s, cands[n - 1]) > score(m, s, prev) {
            assert(0 <= n - 1 < n && cands[n - 1] == b && (forall|j: int|
                0 <= j < n ==> score(m, s, #[trigger] cands[j]) <= score(m, s, b)) && (forall|
                j: int,
            | 0 <= j < n - 1 ==> score(m, s, #[trigger] cands[j]) < score(m, s, b)));
        } else {
            assert(0 <= ip < n && cands[ip] == b && (forall|j: int|
                0 <= j < n ==> score(m, s, #[trigger] cands[j]) <= score(m, s, b)) && (forall|
                j: int,
            | 0 <= j < ip ==> score(m, s, #[trigger] cands[j]) < score(m, s, b)));
        }
    }
}

/// When no candidate fits and the fallback is best-fit, the committed side
/// is a candidate whose summed negative clearances over the checked sides
/// are smallest in magnitude, ties resolved by candidate priority order; its
/// point is that candidate's fresh placement.
pub proof fn lemma_flip_best_fit(m: Flip, s: StateModel)
    requires
        m.fallback_method == FallbackMethod::BestFit,
        first_acceptable_from(m, s, candidates(m, s.side), 0) is None,
    ensures
        ({
            let cands = candidates(m, s.side);
            let b = best_until(m, s, cands, cands.len() as int);
            &&& flip_return(m, s).side == Some(b)
            &&& flip_return(m, s).point == Some(placement_point(s.reference, s.floater.size, b))
            &&& flip_return(m, s).size is None
            &&& exists|i: int|
                0 <= i < cands.len() && cands[i] == b && (forall|j: int|
                    0 <= j < i ==> score(m, s, #[trigger] cands[j]) < score(m, s, b))
            &&& forall|j: int|
                0 <= j < cands.len() ==> score(m, s, #[trigger] cands[j]) <= score(m, s, b)
        }),
{
    let cands = candidates(m, s.side);
    lemma_best_until_props(m, s, cands, cands.len() as int);
}

} // verus!
