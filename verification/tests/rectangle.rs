use geom2d::line_segment::LineSegment;
use geom2d::rectangle::Rectangle;
use geom2d::scalar::Scalar;
use geom2d::vector::Vec2;

fn s(v: f32) -> Scalar {
    Scalar::from_bits(v.to_bits())
}

fn v(x: f32, y: f32) -> Vec2 {
    Vec2::new(s(x), s(y))
}

fn f(sc: Scalar) -> f32 {
    f32::from_bits(sc.bits())
}

fn length(x: f32, y: f32) -> Scalar {
    s(((x * x) + (y * y)).sqrt())
}

#[test]
fn rectangle_can_be_created() {
    let center = v(5.0, 5.0);
    let size = v(6.0, 4.0);
    let rectangle = Rectangle::new(center, size);

    assert_eq!(rectangle.center(), center);
    assert_eq!(rectangle.size(), size);
    assert_eq!(f(rectangle.left()), 2.0);
    assert_eq!(f(rectangle.right()), 8.0);
    assert_eq!(f(rectangle.top()), 7.0);
    assert_eq!(f(rectangle.bottom()), 3.0);
    assert_eq!(rectangle.top_left(), v(2.0, 7.0));
    assert_eq!(rectangle.top_right(), v(8.0, 7.0));
    assert_eq!(rectangle.bottom_right(), v(8.0, 3.0));
    assert_eq!(rectangle.bottom_left(), v(2.0, 3.0));
    assert_eq!(f(rectangle.width()), 6.0);
    assert_eq!(f(rectangle.height()), 4.0);
}

#[test]
fn rectangle_get_corner() {
    let center = v(5.0, 5.0);
    let size = v(6.0, 4.0);
    let rectangle = Rectangle::new(center, size);

    assert_eq!(rectangle.get_corner(0), v(8.0, 3.0)); // bottom right
    assert_eq!(rectangle.get_corner(1), v(8.0, 7.0)); // top right
    assert_eq!(rectangle.get_corner(2), v(2.0, 7.0)); // top left
    assert_eq!(rectangle.get_corner(3), v(2.0, 3.0)); // bottom left
}

#[test]
fn get_corner_closest_to_point() {
    let center = v(5.0, 5.0);
    let size = v(6.0, 4.0);
    let rectangle = Rectangle::new(center, size);

    let p1 = v(1.9, 7.1); // top left
    let p2 = v(8.1, 7.1); // top right
    let p3 = v(8.1, 2.9); // bottom right
    let p4 = v(1.9, 2.9); // bottom left
    let p5 = v(5.0, 5.0); // center

    assert_eq!(rectangle.get_corner_closest_to_point(p1), v(2.0, 7.0));
    assert_eq!(rectangle.get_corner_closest_to_point(p2), v(8.0, 7.0));
    assert_eq!(rectangle.get_corner_closest_to_point(p3), v(8.0, 3.0));
    assert_eq!(rectangle.get_corner_closest_to_point(p4), v(2.0, 3.0));
    assert_eq!(rectangle.get_corner_closest_to_point(p5), v(5.0, 5.0));
}

#[test]
fn rectangle_get_edge() {
    let center = v(5.0, 5.0);
    let size = v(6.0, 4.0);
    let rectangle = Rectangle::new(center, size);

    assert_eq!(rectangle.get_edge(0).point1(), v(8.0, 3.0));
    assert_eq!(rectangle.get_edge(0).point2(), v(8.0, 7.0));

    assert_eq!(rectangle.get_edge(1).point1(), v(8.0, 7.0));
    assert_eq!(rectangle.get_edge(1).point2(), v(2.0, 7.0));

    assert_eq!(rectangle.get_edge(2).point1(), v(2.0, 7.0));
    assert_eq!(rectangle.get_edge(2).point2(), v(2.0, 3.0));

    assert_eq!(rectangle.get_edge(3).point1(), v(2.0, 3.0));
    assert_eq!(rectangle.get_edge(3).point2(), v(8.0, 3.0));
}

#[test]
fn rectangle_has_separating_axis() {
    let center = v(5.0, 5.0);
    let size = v(6.0, 4.0);
    let rectangle = Rectangle::new(center, size);

    let line_segment1 = LineSegment::new(v(10.0, 9.0), v(15.0, 9.0));
    let line_segment2 = LineSegment::new(v(3.0, 9.0), v(4.0, 9.0));

    let n1 = length(10.0 - 15.0, 9.0 - 9.0);
    let n2 = length(3.0 - 4.0, 9.0 - 9.0);

    assert!(rectangle.has_separating_axis(&line_segment1, n1));
    assert!(!rectangle.has_separating_axis(&line_segment2, n2));
}

#[test]
fn enlarge_to_point() {
    let center = v(4.0, 4.0);
    let size = v(2.0, 2.0);
    let rectangle = Rectangle::new(center, size);

    let p1 = v(2.0, 6.0);

    assert_eq!(f(rectangle.enlarge_to_point(p1).left()), 2.0);
    assert_eq!(f(rectangle.enlarge_to_point(p1).right()), 5.0);
    assert_eq!(f(rectangle.enlarge_to_point(p1).top()), 6.0);
    assert_eq!(f(rectangle.enlarge_to_point(p1).bottom()), 3.0);
}

#[test]
fn rectangle_circle_hull() {
    let center = v(4.0, 4.0);
    let size = v(2.0, 2.0);
    let rectangle = Rectangle::new(center, size);

    let half_x = 2.0 * 0.5;
    let half_y = 2.0 * 0.5;
    let circle_hull = rectangle.circle_hull(length(half_x, half_y));

    assert_eq!(circle_hull.center(), rectangle.center());
    assert_eq!(f(circle_hull.radius()), 1.4142135);
}
