use floater::geometry::ElemRect;
use floater::geometry::ElemSize;
use floater::geometry::Side;
use floater::geometry::Vec2;
use floater::modifiers::arrow;
use floater::modifiers::flip;
use floater::modifiers::flip::FallbackMethod;
use floater::modifiers::offset;
use floater::modifiers::resize;
use floater::modifiers::resize::Recalculator;
use floater::modifiers::shift;
use floater::modifiers::shift::attached;
use floater::modifiers::shift::no_limit;
use floater::modifiers::shift::ShiftLimiter;
use floater::modifiers::Modifier;
use floater::modifiers::ModifierReturn;
use floater::modifiers::ModifierState;
use floater::modifiers::Padding;

fn state(reference: ElemRect, floater: ElemRect, container: ElemRect, side: Side) -> ModifierState {
    ModifierState::new(reference, floater, container, side)
}

#[test]
fn offset_moves_outward_per_side() {
    let reference = ElemRect::new(40, 40, 20, 20);
    let container = ElemRect::new(0, 0, 100, 100);
    let floater = ElemRect::new(40, 20, 10, 10);
    for (side, expected) in [
        (Side::Left, (30, 20)),
        (Side::Right, (50, 20)),
        (Side::Top, (40, 10)),
        (Side::Bottom, (40, 30)),
    ] {
        let st = state(reference, floater, container, side);
        let res = offset(10).run(&st);
        assert_eq!(res.point, Some(Vec2::new(expected.0, expected.1)));
        assert_eq!(res.size, None);
        assert_eq!(res.side, None);
    }
}

#[test]
fn shift_no_change_when_clearance_suffices() {
    let st = state(
        ElemRect::new(40, 40, 20, 20),
        ElemRect::new(10, 10, 20, 20),
        ElemRect::new(0, 0, 100, 100),
        Side::Bottom,
    );
    let res = shift().run(&st);
    assert_eq!(res.point, None);
    assert_eq!(res.size, None);
    assert_eq!(res.side, None);
}

#[test]
fn shift_corrects_right_overflow_exactly() {
    let st = state(
        ElemRect::new(40, 40, 20, 20),
        ElemRect::new(90, 10, 20, 20),
        ElemRect::new(0, 0, 100, 100),
        Side::Bottom,
    );
    let res = shift().limiter(no_limit()).run(&st);
    // flush against the right boundary
    assert_eq!(res.point, Some(Vec2::new(80, 10)));
}

#[test]
fn shift_respects_cross_padding() {
    let st = state(
        ElemRect::new(40, 40, 20, 20),
        ElemRect::new(75, 10, 20, 20),
        ElemRect::new(0, 0, 100, 100),
        Side::Bottom,
    );
    // clearance on the right is 5, below the demanded 8
    let res = shift().limiter(no_limit()).padding_cross(8).run(&st);
    assert_eq!(res.point, Some(Vec2::new(72, 10)));
}

#[test]
fn shift_corrects_first_insufficient_adjacent_only() {
    // the floater overflows both sides; only the anticlockwise adjacent
    // (right, for bottom placement) is corrected
    let st = state(
        ElemRect::new(40, 40, 20, 20),
        ElemRect::new(-10, 0, 120, 10),
        ElemRect::new(0, 0, 100, 100),
        Side::Bottom,
    );
    let res = shift().limiter(no_limit()).run(&st);
    assert_eq!(res.point, Some(Vec2::new(-20, 0)));
}

#[test]
fn shift_attached_limiter_clamps_to_reference() {
    let st = state(
        ElemRect::new(40, 40, 20, 20),
        ElemRect::new(-10, 60, 30, 20),
        ElemRect::new(0, 0, 100, 100),
        Side::Bottom,
    );
    // the left overflow would push the floater to x = 0, but the attached
    // limiter keeps it within [10, 60]
    let res = shift().run(&st);
    assert_eq!(res.point, Some(Vec2::new(10, 60)));
    let unlimited = shift().limiter(no_limit()).run(&st);
    assert_eq!(unlimited.point, Some(Vec2::new(0, 60)));
}

#[test]
fn shift_vertical_placement_corrects_y() {
    let st = state(
        ElemRect::new(40, 40, 20, 20),
        ElemRect::new(10, -5, 20, 20),
        ElemRect::new(0, 0, 100, 100),
        Side::Left,
    );
    // adjacents of left are [bottom, top]; bottom has clearance 85, top -5
    let res = shift().limiter(no_limit()).run(&st);
    assert_eq!(res.point, Some(Vec2::new(10, 0)));
}

#[test]
fn shift_rerun_on_corrected_output_changes_nothing() {
    let mut st = state(
        ElemRect::new(40, 40, 20, 20),
        ElemRect::new(95, 10, 20, 20),
        ElemRect::new(0, 0, 100, 100),
        Side::Bottom,
    );
    let m = shift().limiter(no_limit());
    let first = m.run(&st);
    assert_eq!(first.point, Some(Vec2::new(80, 10)));
    st.update_with(&first);
    let second = m.run(&st);
    assert_eq!(second.point, None);
    assert_eq!(second.size, None);
    assert_eq!(second.side, None);
}

#[test]
fn shift_builders_set_padding() {
    let m = shift().padding(7);
    assert_eq!(m.padding, Padding { outward: 7, inward: 7, cross: 7 });
    let m = shift().padding_outward(1).padding_inward(2).padding_cross(3);
    assert_eq!(m.padding, Padding { outward: 1, inward: 2, cross: 3 });
    let m = shift().padding_main(5);
    assert_eq!(m.padding, Padding { outward: 5, inward: 5, cross: 0 });
    assert_eq!(shift().limiter, attached(0));
    assert_eq!(no_limit(), ShiftLimiter::NoLimit);
    assert_eq!(attached(4), ShiftLimiter::Attached { padding: 4 });
}

#[test]
fn flip_keeps_side_with_enough_space() {
    let st = state(
        ElemRect::new(50, 50, 100, 40),
        ElemRect::new(40, 20, 120, 30),
        ElemRect::new(0, 0, 300, 200),
        Side::Top,
    );
    let res = flip().run(&st);
    assert_eq!(res.side, Some(Side::Top));
    assert_eq!(res.point, Some(Vec2::new(40, 20)));
    assert_eq!(res.size, None);
}

#[test]
fn flip_flips_to_opposite_side() {
    let reference = ElemRect::new(10, 10, 20, 10);
    let container = ElemRect::new(0, 0, 100, 100);
    // initial placement on top sticks out of the container
    let floater = ElemRect::new(5, -10, 30, 20);
    let st = state(reference, floater, container, Side::Top);
    let res = flip().run(&st);
    assert_eq!(res.side, Some(Side::Bottom));
    assert_eq!(res.point, Some(Vec2::new(5, 20)));
}

#[test]
fn flip_best_fit_picks_least_overflow() {
    let reference = ElemRect::new(10, 5, 30, 10);
    let container = ElemRect::new(0, 0, 50, 50);
    let floater = ElemRect::new(5, -40, 40, 45);
    let st = state(reference, floater, container, Side::Top);
    // top overflows by 40, bottom by 10: bottom wins
    let res = flip().run(&st);
    assert_eq!(res.side, Some(Side::Bottom));
    assert_eq!(res.point, Some(Vec2::new(5, 15)));
}

#[test]
fn flip_best_fit_tie_keeps_priority_order() {
    let reference = ElemRect::new(10, 20, 30, 10);
    let container = ElemRect::new(0, 0, 50, 50);
    let floater = ElemRect::new(5, -25, 40, 45);
    let st = state(reference, floater, container, Side::Top);
    // top and bottom both overflow by 25: the current side keeps priority
    let res = flip().run(&st);
    assert_eq!(res.side, Some(Side::Top));
    assert_eq!(res.point, Some(Vec2::new(5, -25)));
}

#[test]
fn flip_initial_fallback_changes_nothing() {
    let reference = ElemRect::new(10, 20, 30, 10);
    let container = ElemRect::new(0, 0, 50, 50);
    let floater = ElemRect::new(5, -25, 40, 45);
    let st = state(reference, floater, container, Side::Top);
    let res = flip().fallback_method(FallbackMethod::Initial).run(&st);
    assert_eq!(res.point, None);
    assert_eq!(res.size, None);
    assert_eq!(res.side, None);
}

#[test]
fn flip_cross_considers_adjacent_sides() {
    let reference = ElemRect::new(10, 40, 20, 20);
    let container = ElemRect::new(0, 0, 100, 100);
    // neither top nor bottom fits, but the right side does
    let floater = ElemRect::new(0, -20, 40, 60);
    let st = state(reference, floater, container, Side::Top);
    let res = flip().flip_cross(true).run(&st);
    assert_eq!(res.side, Some(Side::Right));
    assert_eq!(res.point, Some(Vec2::new(30, 20)));
}

#[test]
fn flip_respects_outward_padding() {
    let reference = ElemRect::new(10, 10, 20, 10);
    let container = ElemRect::new(0, 0, 100, 100);
    // the top clearance is exactly 2: acceptable without padding,
    // rejected once 5 is demanded
    let floater = ElemRect::new(12, 2, 16, 8);
    let st = state(reference, floater, container, Side::Top);
    assert_eq!(flip().run(&st).side, Some(Side::Top));
    let res = flip().padding_outward(5).run(&st);
    assert_eq!(res.side, Some(Side::Bottom));
    assert_eq!(res.point, Some(Vec2::new(12, 20)));
}

#[test]
fn resize_available_space_accounts_for_reference() {
    let st = state(
        ElemRect::new(40, 40, 20, 20),
        ElemRect::new(30, 60, 40, 30),
        ElemRect::new(0, 0, 100, 100),
        Side::Bottom,
    );
    let res = resize(Recalculator::Available).run(&st);
    // the full container width, and the height below the reference
    assert_eq!(res.size, Some(ElemSize::new(100, 40)));
    assert_eq!(res.point, Some(Vec2::new(0, 60)));
    assert_eq!(res.side, None);
}

#[test]
fn resize_clamp_current_never_grows() {
    let st = state(
        ElemRect::new(40, 40, 20, 20),
        ElemRect::new(30, 60, 40, 30),
        ElemRect::new(0, 0, 100, 100),
        Side::Bottom,
    );
    let res = resize(Recalculator::ClampCurrent).run(&st);
    assert_eq!(res.size, Some(ElemSize::new(40, 30)));
    assert_eq!(res.point, Some(Vec2::new(30, 60)));
}

#[test]
fn resize_clamp_current_shrinks_to_available() {
    let st = state(
        ElemRect::new(40, 40, 20, 20),
        ElemRect::new(30, 60, 40, 70),
        ElemRect::new(0, 0, 100, 100),
        Side::Bottom,
    );
    let res = resize(Recalculator::ClampCurrent).run(&st);
    // only 40 units of height exist below the reference
    assert_eq!(res.size, Some(ElemSize::new(40, 40)));
    assert_eq!(res.point, Some(Vec2::new(30, 60)));
}

#[test]
fn resize_padding_reduces_available_space() {
    let st = state(
        ElemRect::new(40, 40, 20, 20),
        ElemRect::new(30, 60, 40, 30),
        ElemRect::new(0, 0, 100, 100),
        Side::Bottom,
    );
    let res = resize(Recalculator::Available).padding(5).run(&st);
    // bottom placement: outward+inward leave the width, cross the height
    assert_eq!(res.size, Some(ElemSize::new(90, 35)));
}

#[test]
fn resize_fixed_uses_given_size() {
    let st = state(
        ElemRect::new(40, 40, 20, 20),
        ElemRect::new(30, 60, 40, 30),
        ElemRect::new(0, 0, 100, 100),
        Side::Bottom,
    );
    let res = resize(Recalculator::Fixed(ElemSize::new(10, 8))).run(&st);
    assert_eq!(res.size, Some(ElemSize::new(10, 8)));
    // repositioned for the new size: x = 50 - 5, y = reference bottom
    assert_eq!(res.point, Some(Vec2::new(45, 60)));
}

#[test]
fn arrow_centered_reference_reports_zero_deviation() {
    let st = state(
        ElemRect::new(0, 0, 100, 20),
        ElemRect::new(25, 20, 50, 10),
        ElemRect::new(0, 0, 300, 200),
        Side::Bottom,
    );
    let res = arrow(10).run(&st);
    assert_eq!(res, ModifierReturn::new());
    let data = arrow(10).compute(&st);
    assert_eq!(data.offset(), 20);
    assert_eq!(data.center_offset(), 0);
}

#[test]
fn arrow_clamps_large_misalignment() {
    let st = state(
        ElemRect::new(0, 0, 100, 20),
        ElemRect::new(45, 20, 50, 10),
        ElemRect::new(0, 0, 300, 200),
        Side::Bottom,
    );
    let data = arrow(10).compute(&st);
    // the shift of 20 is exactly the admissible maximum
    assert_eq!(data.offset(), 0);
    assert_eq!(data.center_offset(), 20);
    let far = state(
        ElemRect::new(0, 0, 100, 20),
        ElemRect::new(90, 20, 50, 10),
        ElemRect::new(0, 0, 300, 200),
        Side::Bottom,
    );
    let data = arrow(10).compute(&far);
    // a shift of 65 is clamped to 20
    assert_eq!(data.offset(), 0);
    assert_eq!(data.center_offset(), 20);
}

#[test]
fn arrow_saturated_padding_pins_offset() {
    // padding so large that no shift is admissible: the offset ignores the
    // misalignment entirely
    for x in [25, 45, 90, -60] {
        let st = state(
            ElemRect::new(0, 0, 100, 20),
            ElemRect::new(x, 20, 50, 10),
            ElemRect::new(0, 0, 300, 200),
            Side::Bottom,
        );
        let data = arrow(10).padding(30).compute(&st);
        assert_eq!(data.offset(), 20);
        assert_eq!(data.center_offset(), 0);
    }
}

#[test]
fn arrow_deviation_stays_within_ideal_center() {
    for x in [-100, -30, 0, 25, 60, 200] {
        let st = state(
            ElemRect::new(0, 0, 100, 20),
            ElemRect::new(x, 20, 50, 10),
            ElemRect::new(0, 0, 300, 200),
            Side::Bottom,
        );
        let data = arrow(6).padding(2).compute(&st);
        assert!(data.center_offset() >= 0);
        assert!(data.center_offset() <= 25);
    }
}

#[test]
fn modifier_conversions_wrap_configs() {
    assert_eq!(Modifier::from(flip()), Modifier::Flip(flip()));
    assert_eq!(Modifier::from(shift()), Modifier::Shift(shift()));
    assert_eq!(
        Modifier::from(resize(Recalculator::Available)),
        Modifier::Resize(resize(Recalculator::Available))
    );
    assert_eq!(Modifier::from(arrow(8)), Modifier::Arrow(arrow(8)));
    assert_eq!(offset(3), Modifier::Offset { amount: 3 });
}

#[test]
fn modifier_return_builders_compose() {
    let r = ModifierReturn::new();
    assert_eq!((r.point, r.size, r.side), (None, None, None));
    let r = ModifierReturn::new().point_xy(1, 2).size_wh(3, 4).side(Side::Left);
    assert_eq!(r.point, Some(Vec2::new(1, 2)));
    assert_eq!(r.size, Some(ElemSize::new(3, 4)));
    assert_eq!(r.side, Some(Side::Left));
    let r = ModifierReturn::new().floater(ElemRect::new(5, 6, 7, 8));
    assert_eq!(r.point, Some(Vec2::new(5, 6)));
    assert_eq!(r.size, Some(ElemSize::new(7, 8)));
}

#[test]
fn state_update_merges_partially() {
    let mut st = state(
        ElemRect::new(0, 0, 10, 10),
        ElemRect::new(1, 2, 3, 4),
        ElemRect::new(0, 0, 100, 100),
        Side::Top,
    );
    st.update_with(&ModifierReturn::new().point_xy(9, 9));
    assert_eq!(st.floater, ElemRect::new(9, 9, 3, 4));
    assert_eq!(st.side, Side::Top);
    st.update_with(&ModifierReturn::new().side(Side::Left).size_wh(7, 7));
    assert_eq!(st.floater, ElemRect::new(9, 9, 7, 7));
    assert_eq!(st.side, Side::Left);
    st.update_with(&ModifierReturn::new());
    assert_eq!(st.floater, ElemRect::new(9, 9, 7, 7));
    assert_eq!(st.side, Side::Left);
}
