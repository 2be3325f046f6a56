use geom2d::circle::Circle;
use geom2d::scalar::Scalar;
use geom2d::vector::Vec2;

fn s(v: f32) -> Scalar {
    Scalar::from_bits(v.to_bits())
}

fn v(x: f32, y: f32) -> Vec2 {
    Vec2::new(s(x), s(y))
}

fn f(sc: Scalar) -> f32 {
    f32::from_bits(sc.bits())
}

#[test]
fn circle_can_be_created() {
    let center = v(6.0, 4.0);
    let radius = s(4.0);
    let circle = Circle::new(center, radius);

    assert_eq!(circle.center(), center);
    assert_eq!(circle.radius(), radius);
}

#[test]
fn circle_rectangle_hull() {
    let center = v(4.0, 4.0);
    let radius = s(4.0);
    let circle = Circle::new(center, radius);

    let rectangle_hull = circle.rectangle_hull();

    assert_eq!(f(rectangle_hull.left()), 0.0);
    assert_eq!(f(rectangle_hull.right()), 8.0);
    assert_eq!(f(rectangle_hull.top()), 8.0);
    assert_eq!(f(rectangle_hull.bottom()), 0.0);
}
