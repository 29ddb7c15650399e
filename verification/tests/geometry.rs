use floater::geometry::clamp_i64;
use floater::geometry::ElemRect;
use floater::geometry::ElemSize;
use floater::geometry::Orientation;
use floater::geometry::Side;
use floater::geometry::Vec2;

#[test]
fn side_opposite() {
    assert_eq!(Side::Left.opposite(), Side::Right);
    assert_eq!(Side::Right.opposite(), Side::Left);
    assert_eq!(Side::Top.opposite(), Side::Bottom);
    assert_eq!(Side::Bottom.opposite(), Side::Top);
}

#[test]
fn side_rotations() {
    assert_eq!(Side::Left.clockwise(), Side::Top);
    assert_eq!(Side::Top.clockwise(), Side::Right);
    assert_eq!(Side::Right.clockwise(), Side::Bottom);
    assert_eq!(Side::Bottom.clockwise(), Side::Left);
    assert_eq!(Side::Left.anticlockwise(), Side::Bottom);
    assert_eq!(Side::Top.anticlockwise(), Side::Left);
    assert_eq!(Side::Right.anticlockwise(), Side::Top);
    assert_eq!(Side::Bottom.anticlockwise(), Side::Right);
}

#[test]
fn side_opposite_is_involutive() {
    for s in [Side::Left, Side::Top, Side::Right, Side::Bottom] {
        assert_eq!(s.opposite().opposite(), s);
    }
}

#[test]
fn side_four_clockwise_turns_return() {
    for s in [Side::Left, Side::Top, Side::Right, Side::Bottom] {
        assert_eq!(s.clockwise().clockwise().clockwise().clockwise(), s);
        assert_eq!(s.anticlockwise().clockwise(), s);
    }
}

#[test]
fn side_adjacents_order() {
    let adj = Side::Bottom.adjacents();
    assert_eq!(adj[0], Side::Right);
    assert_eq!(adj[1], Side::Left);
    let adj = Side::Top.adjacents();
    assert_eq!(adj[0], Side::Left);
    assert_eq!(adj[1], Side::Right);
}

#[test]
fn side_orientation() {
    assert_eq!(Side::Left.orientation(), Orientation::Vertical);
    assert_eq!(Side::Right.orientation(), Orientation::Vertical);
    assert_eq!(Side::Top.orientation(), Orientation::Horizontal);
    assert_eq!(Side::Bottom.orientation(), Orientation::Horizontal);
}

#[test]
fn side_css_prop() {
    assert_eq!(Side::Left.as_css_prop(), "left");
    assert_eq!(Side::Top.as_css_prop(), "top");
    assert_eq!(Side::Right.as_css_prop(), "right");
    assert_eq!(Side::Bottom.as_css_prop(), "bottom");
}

#[test]
fn side_default_is_bottom() {
    assert_eq!(Side::default(), Side::Bottom);
}

#[test]
fn vec2_side_relative_coords() {
    let v = Vec2::new(3, 7);
    // left/right edges are vertical: the parallel (cross) component is x
    assert_eq!(v.coord_cross(Side::Left), 3);
    assert_eq!(v.coord_cross(Side::Right), 3);
    assert_eq!(v.coord_main(Side::Left), 7);
    assert_eq!(v.coord_main(Side::Right), 7);
    // top/bottom edges are horizontal: the parallel (cross) component is y
    assert_eq!(v.coord_cross(Side::Top), 7);
    assert_eq!(v.coord_cross(Side::Bottom), 7);
    assert_eq!(v.coord_main(Side::Top), 3);
    assert_eq!(v.coord_main(Side::Bottom), 3);
}

#[test]
fn vec2_set_side_relative_coords() {
    let mut v = Vec2::new(3, 7);
    v.set_coord_cross(Side::Left, 10);
    assert_eq!((v.x, v.y), (10, 7));
    v.set_coord_main(Side::Left, 20);
    assert_eq!((v.x, v.y), (10, 20));
    v.set_coord_cross(Side::Bottom, 30);
    assert_eq!((v.x, v.y), (10, 30));
    v.set_coord_main(Side::Bottom, 40);
    assert_eq!((v.x, v.y), (40, 30));
}

#[test]
fn vec2_arithmetic() {
    let a = Vec2::new(3, -4);
    let b = Vec2::new(1, 2);
    assert_eq!(a.neg(), Vec2::new(-3, 4));
    assert_eq!(a.plus(b), Vec2::new(4, -2));
    assert_eq!(a.minus(b), Vec2::new(2, -6));
    assert_eq!(a.scale(3), Vec2::new(9, -12));
}

#[test]
fn size_side_relative_dims() {
    let s = ElemSize::new(40, 9);
    assert_eq!(s.dim_main(Side::Bottom), 40);
    assert_eq!(s.dim_cross(Side::Bottom), 9);
    assert_eq!(s.dim_main(Side::Left), 9);
    assert_eq!(s.dim_cross(Side::Left), 40);
    assert_eq!(s.as_vec2(), Vec2::new(40, 9));
}

#[test]
fn rect_edges() {
    let r = ElemRect::new(10, 20, 30, 40);
    assert_eq!(r.x(), 10);
    assert_eq!(r.y(), 20);
    assert_eq!(r.width(), 30);
    assert_eq!(r.height(), 40);
    assert_eq!(r.left(), 10);
    assert_eq!(r.right(), 40);
    assert_eq!(r.top(), 20);
    assert_eq!(r.bottom(), 60);
    assert_eq!(r.xy(), (10, 20));
    assert_eq!(r.point(), Vec2::new(10, 20));
    assert_eq!(r.size(), ElemSize::new(30, 40));
}

#[test]
fn rect_center_truncates_toward_zero() {
    assert_eq!(ElemRect::new(0, 0, 5, 7).center(), Vec2::new(2, 3));
    assert_eq!(ElemRect::new(0, 0, -5, -7).center(), Vec2::new(-2, -3));
    assert_eq!(ElemRect::new(10, 10, 4, 6).center(), Vec2::new(12, 13));
}

#[test]
fn rect_negative_size_edges() {
    // negative sizes are permitted; edges are simply unordered
    let r = ElemRect::new(10, 10, -4, -6);
    assert_eq!(r.right(), 6);
    assert_eq!(r.bottom(), 4);
}

#[test]
fn rect_setters() {
    let mut r = ElemRect::new(1, 2, 3, 4);
    r.set_x(9);
    assert_eq!(r.xy(), (9, 2));
    r.set_y(8);
    assert_eq!(r.xy(), (9, 8));
    r.set_point(Vec2::new(5, 6));
    assert_eq!(r.xy(), (5, 6));
    r.set_size(ElemSize::new(7, 8));
    assert_eq!(r.size(), ElemSize::new(7, 8));
    assert_eq!(r, ElemRect::from_parts(Vec2::new(5, 6), ElemSize::new(7, 8)));
}

#[test]
fn clamp_within_and_outside() {
    assert_eq!(clamp_i64(5, 0, 10), 5);
    assert_eq!(clamp_i64(-5, 0, 10), 0);
    assert_eq!(clamp_i64(15, 0, 10), 10);
    // an empty interval resolves to the lower bound
    assert_eq!(clamp_i64(5, 10, 0), 10);
}
