use float_cmp::{ApproxEq, F32Margin};
use geom2d::line_segment::LineSegment;
use geom2d::oriented_rectangle::OrientedRectangle;
use geom2d::range::Range;
use geom2d::rectangle::Rectangle;
use geom2d::scalar::Scalar;
use geom2d::vector::{Rotation, Vec2};

fn s(v: f32) -> Scalar {
    Scalar::from_bits(v.to_bits())
}

fn v(x: f32, y: f32) -> Vec2 {
    Vec2::new(s(x), s(y))
}

fn f(sc: Scalar) -> f32 {
    f32::from_bits(sc.bits())
}

fn rot(degrees: f32) -> Rotation {
    let (sin, cos) = degrees.to_radians().sin_cos();
    Rotation::new(s(degrees), s(sin), s(cos))
}

fn length(x: f32, y: f32) -> Scalar {
    s(((x * x) + (y * y)).sqrt())
}

#[test]
fn range_sort_orders() {
    let reversed = Range::new(s(6.0), s(3.0));
    let sorted = reversed.sort();
    assert_eq!(f(sorted.min()), 3.0);
    assert_eq!(f(sorted.max()), 6.0);

    let ordered = Range::new(s(-1.0), s(2.0));
    let kept = ordered.sort();
    assert_eq!(f(kept.min()), -1.0);
    assert_eq!(f(kept.max()), 2.0);
}

#[test]
fn range_sort_leaves_nan_in_place() {
    let with_nan = Range::new(s(f32::NAN), s(3.0));
    let sorted = with_nan.sort();
    assert_eq!(sorted.min().bits(), f32::NAN.to_bits());
    assert_eq!(f(sorted.max()), 3.0);
}

#[test]
fn range_hull_contains_both() {
    let a = Range::new(s(1.0), s(4.0));
    let b = Range::new(s(3.0), s(9.0));
    let hull = a.hull(b);
    assert_eq!(f(hull.min()), 1.0);
    assert_eq!(f(hull.max()), 9.0);
    for sample in [1.0f32, 1.5, 3.5, 4.0, 8.0, 9.0] {
        assert!(a.contains(s(sample)) || b.contains(s(sample)));
        assert!(hull.contains(s(sample)));
    }
}

#[test]
fn range_intersects_symmetry() {
    let a = Range::new(s(1.0), s(4.0));
    let b = Range::new(s(4.0), s(9.0));
    let c = Range::new(s(5.0), s(9.0));
    let d = Range::new(s(f32::NAN), s(9.0));
    assert_eq!(a.intersects(b), b.intersects(a));
    assert!(a.intersects(b));
    assert_eq!(a.intersects(c), c.intersects(a));
    assert!(!a.intersects(c));
    assert_eq!(a.intersects(d), d.intersects(a));
}

#[test]
fn rotation_round_trips_within_tolerance() {
    let vector = v(3.0, 4.0);
    let rotated = vector.rotate_vector(&rot(30.0));
    let back = rotated.rotate_vector(&rot(-30.0));
    assert!((f(back.x) - 3.0).abs() <= 1e-5);
    assert!((f(back.y) - 4.0).abs() <= 1e-5);
}

#[test]
fn rotate_90_is_orthogonal_exactly() {
    let vector = v(3.0, 4.0);
    let normal = vector.rotate_vector_90();
    assert_eq!(f(normal.x), -4.0);
    assert_eq!(f(normal.y), 3.0);
    let d = vector.dot(normal);
    assert_eq!(d.bits(), 0.0f32.to_bits());
}

#[test]
fn scalar_comparisons_match_hardware() {
    let samples = [
        0.0f32,
        -0.0,
        1.5,
        -1.5,
        2.0,
        f32::INFINITY,
        f32::NEG_INFINITY,
        f32::NAN,
        1e-40,
        -1e-40,
        f32::EPSILON,
    ];
    for &a in samples.iter() {
        for &b in samples.iter() {
            assert_eq!(s(a).lt(s(b)), a < b, "lt on {a} {b}");
            assert_eq!(s(a).le(s(b)), a <= b, "le on {a} {b}");
            assert_eq!(s(a).gt(s(b)), a > b, "gt on {a} {b}");
            assert_eq!(s(a).ge(s(b)), a >= b, "ge on {a} {b}");
        }
    }
}

#[test]
fn scalar_min_max_match_hardware() {
    let samples = [1.5f32, -1.5, 2.0, f32::INFINITY, f32::NEG_INFINITY, f32::NAN, 1e-40, 0.0];
    for &a in samples.iter() {
        for &b in samples.iter() {
            if a.is_nan() && b.is_nan() {
                continue;
            }
            assert_eq!(f(s(a).min(s(b))).to_bits(), a.min(b).to_bits(), "min on {a} {b}");
            assert_eq!(f(s(a).max(s(b))).to_bits(), a.max(b).to_bits(), "max on {a} {b}");
        }
    }
}

#[test]
fn dot_product_matches_hardware() {
    let a = v(0.1, 0.2);
    let b = v(0.3, 0.7);
    let expected = (0.1f32 * 0.3) + (0.2f32 * 0.7);
    assert_eq!(a.dot(b).bits(), expected.to_bits());
}

#[test]
fn projection_onto_scaled_axis() {
    // The axis is normalized inside, so a longer axis gives the same
    // interval; a wrong reciprocal would scale it.
    let line_segment = LineSegment::new(v(3.0, 3.0), v(6.0, 3.0));
    let result = line_segment.project(v(2.0, 0.0), length(2.0, 0.0));
    assert_eq!(f(result.min()), 3.0);
    assert_eq!(f(result.max()), 6.0);
}

#[test]
fn vector_projection_degenerates_on_zero_direction() {
    let zero = v(0.0, 0.0);
    assert_eq!(v(3.0, 4.0).project(zero), zero);
    let onto = v(2.0, 0.0);
    let projected = v(3.0, 4.0).project(onto);
    assert_eq!(f(projected.x), 3.0);
    assert_eq!(f(projected.y), 0.0);
}

#[test]
fn is_parallel_matches_float_cmp() {
    let pairs = [
        ((1.0f32, 0.0f32), (2.0f32, 0.0f32)),
        ((1.0, 0.0), (0.0, 1.0)),
        ((3.0, 4.0), (6.0, 8.0)),
        ((3.0, 4.0), (6.0, 8.1)),
        ((1.0, 0.0), (1e8, 0.00000001)),
        ((7.0, -2.0), (-14.0, 4.0)),
    ];
    for &((ax, ay), (bx, by)) in pairs.iter() {
        let na = (-ay, ax);
        let dot_product = (na.0 * bx) + (na.1 * by);
        let expected = 0.0f32.approx_eq(dot_product, F32Margin::default());
        assert_eq!(v(ax, ay).is_parallel(v(bx, by)), expected, "{ax} {ay} {bx} {by}");
    }
}

#[test]
fn corner_closest_checked_matches_and_rejects() {
    let valid = Rectangle::new(v(5.0, 5.0), v(6.0, 4.0));
    let p = v(1.9, 7.1);
    assert_eq!(valid.try_get_corner_closest_to_point(p), Some(v(2.0, 7.0)));

    let inverted = Rectangle::new(v(5.0, 5.0), v(-6.0, 4.0));
    assert_eq!(inverted.try_get_corner_closest_to_point(p), None);
}

#[test]
fn unrotated_corners_match_underlying_rectangle() {
    let rectangle = Rectangle::new(v(4.0, 4.0), v(2.0, 2.0));
    let oriented = OrientedRectangle::new(rectangle, rot(0.0));

    assert_eq!(oriented.get_corner(1), rectangle.get_corner(1));
    assert_eq!(oriented.get_corner(3), rectangle.get_corner(3));
    // The even-numbered corners are counted from the opposite diagonal end.
    assert_eq!(oriented.get_corner(0), rectangle.get_corner(2));
    assert_eq!(oriented.get_corner(2), rectangle.get_corner(0));
}

#[test]
fn corner_numbers_wrap_modulo_four() {
    let rectangle = Rectangle::new(v(5.0, 5.0), v(6.0, 4.0));
    assert_eq!(rectangle.get_corner(5), rectangle.get_corner(1));
    assert_eq!(rectangle.get_edge(7).point1(), rectangle.get_edge(3).point1());
    let oriented = OrientedRectangle::new(rectangle, rot(30.0));
    assert_eq!(oriented.get_corner(6), oriented.get_corner(2));
}

#[test]
fn circle_hull_radius_does_not_depend_on_rotation() {
    let rectangle = Rectangle::new(v(4.0, 4.0), v(2.0, 2.0));
    let a = OrientedRectangle::new(rectangle, rot(10.0));
    let b = OrientedRectangle::new(rectangle, rot(80.0));
    let half = (2.0f32 * 0.5, 2.0f32 * 0.5);
    let la = length(half.0, half.1);
    let lb = length(half.0, half.1);
    assert_eq!(a.circle_hull(la).radius(), b.circle_hull(lb).radius());
}

#[test]
fn rectangle_edges_match_hardware_arithmetic() {
    let samples = [0.0f32, 1.0, -2.5, 0.1, 3.75e7, -1.33e-5, 1e-40, 123.456];
    for &cx in samples.iter() {
        for &sx in samples.iter() {
            let rectangle = Rectangle::new(v(cx, 2.0 * cx), v(sx, 3.0 * sx));
            assert_eq!(f(rectangle.left()).to_bits(), (cx - (sx * 0.5)).to_bits());
            assert_eq!(f(rectangle.right()).to_bits(), (cx + (sx * 0.5)).to_bits());
            assert_eq!(f(rectangle.top()).to_bits(), ((2.0 * cx) + ((3.0 * sx) * 0.5)).to_bits());
            assert_eq!(f(rectangle.bottom()).to_bits(), ((2.0 * cx) - ((3.0 * sx) * 0.5)).to_bits());
        }
    }
}

#[test]
fn range_operations_match_hardware_semantics() {
    let samples = [0.0f32, -0.0, 1.0, -2.5, f32::NAN, f32::INFINITY, 3.5];
    for &a in samples.iter() {
        for &b in samples.iter() {
            for &c in samples.iter() {
                for &d in samples.iter() {
                    let r1 = Range::new(s(a), s(b));
                    let r2 = Range::new(s(c), s(d));
                    assert_eq!(r1.intersects(r2), c <= b && a <= d, "{a} {b} {c} {d}");
                    assert_eq!(r1.contains(s(c)), c >= a && c <= b, "{a} {b} {c}");
                    let sorted = r1.sort();
                    let (em, ex) = if a > b { (b, a) } else { (a, b) };
                    assert_eq!(f(sorted.min()).to_bits(), em.to_bits());
                    assert_eq!(f(sorted.max()).to_bits(), ex.to_bits());
                    let hull = r1.hull(r2);
                    let hm = if a < c { a } else { c };
                    let hx = if b > d { b } else { d };
                    assert_eq!(f(hull.min()).to_bits(), hm.to_bits());
                    assert_eq!(f(hull.max()).to_bits(), hx.to_bits());
                }
            }
        }
    }
}

#[test]
fn line_on_one_side_endpoint_on_line_is_false() {
    let line = geom2d::line::Line::new(v(0.0, 0.0), v(1.0, 0.0));
    let touching = LineSegment::new(v(2.0, 0.0), v(3.0, 4.0));
    assert!(!line.on_one_side(&touching));
    let above = LineSegment::new(v(2.0, 1.0), v(3.0, 4.0));
    assert!(line.on_one_side(&above));
}
