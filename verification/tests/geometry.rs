use planar_geometry::point::Point;
use planar_geometry::rect::{Quadrant, Rect, Size};
use planar_geometry::vector::{Vector, EPSILON, UNIT};

// Coordinates are fixed point: UNIT (10_000_000) raw units to one unit of
// length, so 50_000_000 raw units stand for a length of 5 units.

// Point /////////////////////////////////////////////////////////////////////

#[test]
fn point_distance_from_origin() {
    // given
    let p1 = Point { x: 0, y: 0 };
    let p2 = Point { x: 5 * UNIT, y: 0 };

    // when
    let result = p1.distance_to(&p2);

    // then
    assert_eq!(result, 5 * UNIT);
}

#[test]
fn point_distance_to_origin() {
    // given
    let p1 = Point { x: 0, y: 0 };
    let p2 = Point { x: 0, y: -5 * UNIT };

    // when
    let result = p2.distance_to(&p1);

    // then
    assert_eq!(result, 5 * UNIT);
}

#[test]
fn point_distance_to_self_is_zero() {
    let p = Point::new(3 * UNIT, -7 * UNIT);
    assert_eq!(p.distance_to(&p), 0);
}

#[test]
fn point_distance_is_symmetric() {
    let a = Point::new(-2 * UNIT, 9 * UNIT);
    let b = Point::new(4 * UNIT, -3 * UNIT);
    assert_eq!(a.distance_to(&b), b.distance_to(&a));
}

#[test]
fn point_origin_is_origin() {
    assert!(Point::origin().is_origin());
    assert!(!Point::new(1, 0).is_origin());
}

// Vector ////////////////////////////////////////////////////////////////////

#[test]
fn vector_add_assigns() {
    // given
    let mut sut = Vector { dx: 3 * UNIT, dy: 4 * UNIT };

    // when
    sut.add_assign(&Vector { dx: 95_000_000, dy: -35_000_000 });

    // then
    assert!(sut.approx_equals(&Vector { dx: 125_000_000, dy: 5_000_000 }));
}

#[test]
fn vector_scalar_multiplies() {
    // given
    let sut = Vector { dx: 3 * UNIT, dy: 4 * UNIT };

    // when
    let result = sut.scale(3);

    // then
    assert!(result.approx_equals(&Vector { dx: 9 * UNIT, dy: 12 * UNIT }));
}

#[test]
fn vector_scalar_divides() {
    // given
    let sut = Vector { dx: 3 * UNIT, dy: 12 * UNIT };

    // when
    let result = sut.div(3);

    // then
    assert!(result.approx_equals(&Vector { dx: UNIT, dy: 4 * UNIT }));
}

#[test]
fn vector_scalar_division_truncates_toward_zero() {
    let sut = Vector { dx: -7, dy: 7 };
    let result = sut.div(2);
    assert_eq!(result, Vector { dx: -3, dy: 3 });
    let flipped = sut.div(-2);
    assert_eq!(flipped, Vector { dx: 3, dy: -3 });
}

#[test]
fn vector_inner_product() {
    // given: 3.4 and -4.9 against 10.0 and 6.3, in raw units
    let a = Vector { dx: 34_000_000, dy: -49_000_000 };
    let b = Vector { dx: 100_000_000, dy: 63_000_000 };

    // when
    let result = a.dot(&b);

    // then: exactly 3.13 in units squared, i.e. 3.13 * UNIT * UNIT raw
    assert_eq!(result, 313_000_000_000_000);
}

#[test]
fn vector_addition_is_field_wise() {
    let a = Vector { dx: 3 * UNIT, dy: 4 * UNIT };
    let b = Vector { dx: -UNIT, dy: 2 * UNIT };
    assert_eq!(a.add(&b), Vector { dx: 2 * UNIT, dy: 6 * UNIT });
}

#[test]
fn vector_magnitude() {
    // given, when, then
    assert_eq!(Vector { dx: 3 * UNIT, dy: 4 * UNIT }.magnitude(), 5 * UNIT);
}

#[test]
fn vector_normalize() {
    // given: 3.3 and 5.2 in raw units
    let sut = Vector { dx: 33_000_000, dy: 52_000_000 };

    // when
    match sut.normalized() {
        None => panic!(),
        Some(result) => {
            // then: within three raw units of one unit, never above
            let error = result.magnitude() - UNIT;
            assert!(-3 <= error && error <= 0);
        }
    };
}

#[test]
fn vector_normalize_axis_vector_is_exact() {
    let sut = Vector { dx: 0, dy: -UNIT };
    match sut.normalized() {
        None => panic!(),
        Some(result) => {
            assert_eq!(result, Vector { dx: 0, dy: -UNIT });
            assert_eq!(result.magnitude(), UNIT);
        }
    };
}

#[test]
fn vector_does_not_normalize_if_zero() {
    // given, when, then
    assert_eq!(Vector::zero().normalized(), None);
}

#[test]
fn vector_tolerant_equality_honors_epsilon() {
    let v = Vector { dx: 3 * UNIT, dy: 4 * UNIT };
    assert!(v.approx_equals(&v));
    // one raw unit apart is exactly the tolerance, and no longer equal
    let off = Vector { dx: 3 * UNIT + EPSILON, dy: 4 * UNIT };
    assert!(!v.approx_equals(&off));
}

// Size //////////////////////////////////////////////////////////////////////

#[test]
fn size_rejects_non_positive_width() {
    // given, when, then
    assert_eq!(Size::try_new(-UNIT, UNIT), None);
}

#[test]
fn size_rejects_non_positive_height() {
    // given, when, then
    assert_eq!(Size::try_new(10 * UNIT, 0), None);
}

#[test]
fn size_accepts_positive_extent() {
    assert_eq!(
        Size::try_new(10 * UNIT, UNIT),
        Some(Size { width: 10 * UNIT, height: UNIT })
    );
}

// Rect //////////////////////////////////////////////////////////////////////

#[test]
fn rect_rejects_non_positive_size() {
    // given, when, then
    assert_eq!(Rect::try_new(-UNIT, UNIT, -UNIT, 0), None);
}

#[test]
fn rect_quadrants() {
    // given
    let sut = Rect::new(0, 0, 6 * UNIT, 8 * UNIT);

    // when
    let (nw, ne, sw, se) = sut.quadrants();

    // then
    assert_eq!(nw, Rect::new(0, 4 * UNIT, 3 * UNIT, 4 * UNIT));
    assert_eq!(ne, Rect::new(3 * UNIT, 4 * UNIT, 3 * UNIT, 4 * UNIT));
    assert_eq!(sw, Rect::new(0, 0, 3 * UNIT, 4 * UNIT));
    assert_eq!(se, Rect::new(3 * UNIT, 0, 3 * UNIT, 4 * UNIT));
}

#[test]
fn rect_contains_point() {
    // given
    let sut = Rect::new(0, 0, 10 * UNIT, 5 * UNIT);

    // then
    assert!(sut.contains(&Point::new(0, 0)));
    assert!(sut.contains(&Point::new(3 * UNIT, 3 * UNIT)));
    assert!(sut.contains(&Point::new(10 * UNIT, 5 * UNIT)));

    assert!(!sut.contains(&Point::new(-1_000, 0)));
    assert!(!sut.contains(&Point::new(10 * UNIT, 50_000_100)));
    assert!(!sut.contains(&Point::new(14 * UNIT, 50_100_000)));
}

#[test]
fn rect_which_quadrant() {
    // given: a square whose midlines sit at 2.5 units
    let sut = Rect::new(0, 0, 5 * UNIT, 5 * UNIT);
    let (nw, ne, sw, se) = sut.quadrants();
    let mid = 25_000_000;

    // then (bottom left of each quadrant)
    assert_eq!(sut.which_quadrant(&Point::new(0, mid)), Some(Quadrant::NW(nw)));
    assert_eq!(sut.which_quadrant(&Point::new(mid, mid)), Some(Quadrant::NW(nw)));
    assert_eq!(sut.which_quadrant(&Point::new(0, 0)), Some(Quadrant::SW(sw)));
    assert_eq!(sut.which_quadrant(&Point::new(mid, 0)), Some(Quadrant::SW(sw)));

    // then (top right of each quadrant)
    assert_eq!(sut.which_quadrant(&Point::new(mid, 5 * UNIT)), Some(Quadrant::NW(nw)));
    assert_eq!(sut.which_quadrant(&Point::new(5 * UNIT, 5 * UNIT)), Some(Quadrant::NE(ne)));
    assert_eq!(sut.which_quadrant(&Point::new(5 * UNIT, mid)), Some(Quadrant::NE(ne)));

    // then (anywhere in a quadrant)
    assert_eq!(sut.which_quadrant(&Point::new(3_000_000, 29_000_000)), Some(Quadrant::NW(nw)));
    assert_eq!(sut.which_quadrant(&Point::new(26_000_000, 42_000_000)), Some(Quadrant::NE(ne)));
    assert_eq!(sut.which_quadrant(&Point::new(10_000_000, 20_000_000)), Some(Quadrant::SW(sw)));
    assert_eq!(sut.which_quadrant(&Point::new(37_000_000, 24_000_000)), Some(Quadrant::SE(se)));

    // then (outside the rectangle)
    assert_eq!(sut.which_quadrant(&Point::new(-mid, 5 * UNIT)), None);
    assert_eq!(sut.which_quadrant(&Point::new(54_000_000, 4_000_000)), None);
    assert_eq!(sut.which_quadrant(&Point::new(mid, -4 * UNIT)), None);
    assert_eq!(sut.which_quadrant(&Point::new(4 * UNIT, 65_000_000)), None);
}

#[test]
fn rect_quadrants_cover_every_contained_point() {
    // given: even sides, so the four quadrants tile the rectangle exactly
    let sut = Rect::new(-2 * UNIT, -2 * UNIT, 4 * UNIT, 4 * UNIT);

    // then: corners, edge midpoints and center all classify somewhere
    let samples = [
        (-2 * UNIT, -2 * UNIT),
        (2 * UNIT, -2 * UNIT),
        (-2 * UNIT, 2 * UNIT),
        (2 * UNIT, 2 * UNIT),
        (0, -2 * UNIT),
        (0, 2 * UNIT),
        (-2 * UNIT, 0),
        (2 * UNIT, 0),
        (0, 0),
    ];
    for (x, y) in samples {
        assert!(sut.which_quadrant(&Point::new(x, y)).is_some());
    }
}

#[test]
fn rect_vertical_midline_resolves_west() {
    // given: points on the shared vertical midline classify NW or SW, by the
    // declared priority order, never NE or SE
    let sut = Rect::new(0, 0, 4 * UNIT, 4 * UNIT);
    let (nw, _, sw, _) = sut.quadrants();
    let mid_x = 2 * UNIT;

    assert_eq!(sut.which_quadrant(&Point::new(mid_x, 3 * UNIT)), Some(Quadrant::NW(nw)));
    assert_eq!(sut.which_quadrant(&Point::new(mid_x, 2 * UNIT)), Some(Quadrant::NW(nw)));
    assert_eq!(sut.which_quadrant(&Point::new(mid_x, UNIT)), Some(Quadrant::SW(sw)));
    assert_eq!(sut.which_quadrant(&Point::new(mid_x, 0)), Some(Quadrant::SW(sw)));
}
