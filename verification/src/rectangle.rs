use vstd::prelude::*;
use crate::arith::{HALF_BITS, sadd, scalar_add, scalar_mul, scalar_sub, smul, ssub};
use crate::circle::Circle;
use crate::line_segment::LineSegment;
use crate::scalar::{Scalar, is_nan_bits, key};
use crate::vector::{Vec2, vsub};

verus! {

/// An axis-aligned rectangle given by its center and its full size. A
/// negative size component inverts the left/right or top/bottom ordering;
/// that passthrough is deliberate and is not normalized.
#[derive(Clone, Copy, PartialEq, Eq, Structural, Debug)]
pub struct Rectangle {
    pub center: Vec2,
    pub size: Vec2,
}

impl Rectangle {
    pub open spec fn width_spec(self) -> Scalar {
        self.size.x
    }

    pub open spec fn height_spec(self) -> Scalar {
        self.size.y
    }

    /// The x coordinate of the left edge: the center minus half the width.
    pub open spec fn left_spec(self) -> Scalar {
        ssub(self.center.x, smul(self.size.x, Scalar { bits: HALF_BITS }))
    }

    /// The x coordinate of the right edge: the center plus half the width.
    pub open spec fn right_spec(self) -> Scalar {
        sadd(self.center.x, smul(self.size.x, Scalar { bits: HALF_BITS }))
    }

    /// The y coordinate of the top edge: the center plus half the height.
    pub open spec fn top_spec(self) -> Scalar {
        sadd(self.center.y, smul(self.size.y, Scalar { bits: HALF_BITS }))
    }

    /// The y coordinate of the bottom edge: the center minus half the
    /// height.
    pub open spec fn bottom_spec(self) -> Scalar {
        ssub(self.center.y, smul(self.size.y, Scalar { bits: HALF_BITS }))
    }

    /// The corner numbered `number`, reduced modulo four: bottom-right,
    /// top-right, top-left, bottom-left, in that order.
    pub open spec fn corner_spec(self, number: u32) -> Vec2 {
        let corner_number = number % 4;
        if corner_number == 0 {
            Vec2 { x: self.right_spec(), y: self.bottom_spec() }
        } else if corner_number == 1 {
            Vec2 { x: self.right_spec(), y: self.top_spec() }
        } else if corner_number == 2 {
            Vec2 { x: self.left_spec(), y: self.top_spec() }
        } else {
            Vec2 { x: self.left_spec(), y: self.bottom_spec() }
        }
    }

    /// The edge numbered `number`, reduced modulo four: edge `n` joins
    /// corner `n` to corner `n + 1`, wrapping around.
    pub open spec fn edge_spec(self, number: u32) -> LineSegment {
        let edge_number = number % 4;
        if edge_number == 3 {
            LineSegment { point1: self.corner_spec(3), point2: self.corner_spec(0) }
        } else {
            LineSegment {
                point1: self.corner_spec(edge_number),
                point2: self.corner_spec((edge_number + 1) as u32),
            }
        }
    }

    /// The point of the rectangle closest to `p`: each coordinate clamped
    /// into the rectangle's extent. A point inside comes back unchanged.
    pub open spec fn corner_closest_spec(self, point: Vec2) -> Vec2 {
        Vec2 {
            x: point.x.clamp_spec(self.left_spec(), self.right_spec()),
            y: point.y.clamp_spec(self.bottom_spec(), self.top_spec()),
        }
    }

    /// The smallest axis-aligned rectangle containing both this rectangle
    /// and the point `p`, rebuilt from fresh minimum and maximum bounds.
    pub open spec fn enlarge_spec(self, p: Vec2) -> Rectangle {
        let x = self.left_spec().min_spec(p.x);
        let y = self.bottom_spec().min_spec(p.y);
        let size_x = ssub(self.right_spec().max_spec(p.x), x);
        let size_y = ssub(self.top_spec().max_spec(p.y), y);
        Rectangle {
            center: Vec2 {
                x: sadd(x, smul(size_x, Scalar { bits: HALF_BITS })),
                y: sadd(y, smul(size_y, Scalar { bits: HALF_BITS })),
            },
            size: Vec2 { x: size_x, y: size_y },
        }
    }

    /// Whether the axis carried by `axis_segment` separates this rectangle
    /// from the segment: the rectangle's extent along the axis is the hull
    /// of the projections of edges zero and two (a diagonal pair, enough
    /// because opposite edges of a box mirror each other along any axis),
    /// and the axis separates when that extent misses the segment's own
    /// projection.
    pub open spec fn separating_axis_spec(self, axis: LineSegment, axis_normal_length: Scalar) -> bool {
        let n = vsub(axis.point1, axis.point2);
        let r0 = self.edge_spec(0).project_spec(n, axis_normal_length);
        let r2 = self.edge_spec(2).project_spec(n, axis_normal_length);
        let axis_range = axis.project_spec(n, axis_normal_length);
        !axis_range.intersects_spec(r0.hull_spec(r2))
    }

    pub fn new(center: Vec2, size: Vec2) -> (r: Rectangle)
        ensures
            r.center == center,
            r.size == size,
    {
        Rectangle { center, size }
    }

    pub fn center(&self) -> (r: Vec2)
        ensures
            r == self.center,
    {
        self.center
    }

    pub fn size(&self) -> (r: Vec2)
        ensures
            r == self.size,
    {
        self.size
    }

    pub fn width(&self) -> (r: Scalar)
        ensures
            r == self.width_spec(),
    {
        self.size.x
    }

    pub fn height(&self) -> (r: Scalar)
        ensures
            r == self.height_spec(),
    {
        self.size.y
    }

    pub fn left(&self) -> (r: Scalar)
        ensures
            r == self.left_spec(),
    {
        scalar_sub(self.center.x, scalar_mul(self.width(), Scalar { bits: HALF_BITS }))
    }

    pub fn right(&self) -> (r: Scalar)
        ensures
            r == self.right_spec(),
    {
        scalar_add(self.center.x, scalar_mul(self.width(), Scalar { bits: HALF_BITS }))
    }

    pub fn top(&self) -> (r: Scalar)
        ensures
            r == self.top_spec(),
    {
        scalar_add(self.center.y, scalar_mul(self.height(), Scalar { bits: HALF_BITS }))
    }

    pub fn bottom(&self) -> (r: Scalar)
        ensures
            r == self.bottom_spec(),
    {
        scalar_sub(self.center.y, scalar_mul(self.height(), Scalar { bits: HALF_BITS }))
    }

    pub fn top_left(&self) -> (r: Vec2)
        ensures
            r == self.corner_spec(2),
    {
        Vec2::new(self.left(), self.top())
    }

    pub fn top_right(&self) -> (r: Vec2)
        ensures
            r == self.corner_spec(1),
    {
        Vec2::new(self.right(), self.top())
    }

    pub fn bottom_left(&self) -> (r: Vec2)
        ensures
            r == self.corner_spec(3),
    {
        Vec2::new(self.left(), self.bottom())
    }

    pub fn bottom_right(&self) -> (r: Vec2)
        ensures
            r == self.corner_spec(0),
    {
        Vec2::new(self.right(), self.bottom())
    }

    pub fn get_corner(&self, number: u32) -> (r: Vec2)
        ensures
            r == self.corner_spec(number),
    {
        let corner_number = number % 4;
        if corner_number == 0 {
            self.bottom_right()
        } else if corner_number == 1 {
            self.top_right()
        } else if corner_number == 2 {
            self.top_left()
        } else {
            self.bottom_left()
        }
    }

    /// The point of the rectangle closest to `point`. Clamping panics on
    /// unordered or NaN bounds, so an inverted or NaN-sized rectangle is
    /// excluded here; `try_get_corner_closest_to_point` checks those bounds
    /// at run time instead.
    pub fn get_corner_closest_to_point(&self, point: Vec2) -> (r: Vec2)
        requires
            !is_nan_bits(self.left_spec().bits),
            !is_nan_bits(self.right_spec().bits),
            key(self.left_spec().bits) <= key(self.right_spec().bits),
            !is_nan_bits(self.bottom_spec().bits),
            !is_nan_bits(self.top_spec().bits),
            key(self.bottom_spec().bits) <= key(self.top_spec().bits),
        ensures
            r == self.corner_closest_spec(point),
    {
        let x = point.x.clamp(self.left(), self.right());
        let y = point.y.clamp(self.bottom(), self.top());
        Vec2::new(x, y)
    }

    /// The point of the rectangle closest to `point`, or `None` when the
    /// rectangle's bounds are inverted or NaN and clamping has no meaning.
    pub fn try_get_corner_closest_to_point(&self, point: Vec2) -> (r: Option<Vec2>)
        ensures
            (!is_nan_bits(self.left_spec().bits) && !is_nan_bits(self.right_spec().bits)
                && key(self.left_spec().bits) <= key(self.right_spec().bits) && !is_nan_bits(
                self.bottom_spec().bits,
            ) && !is_nan_bits(self.top_spec().bits) && key(self.bottom_spec().bits) <= key(
                self.top_spec().bits,
            )) ==> r == Some(self.corner_closest_spec(point)),
            (is_nan_bits(self.left_spec().bits) || is_nan_bits(self.right_spec().bits) || key(
                self.left_spec().bits,
            ) > key(self.right_spec().bits) || is_nan_bits(self.bottom_spec().bits) || is_nan_bits(
                self.top_spec().bits,
            ) || key(self.bottom_spec().bits) > key(self.top_spec().bits)) ==> r is None,
    {
        let l = self.left();
        let r = self.right();
        let b = self.bottom();
        let t = self.top();
        if l.is_nan() || r.is_nan() || b.is_nan() || t.is_nan() || !l.le(r) || !b.le(t) {
            None
        } else {
            Some(self.get_corner_closest_to_point(point))
        }
    }

    pub fn get_edge(&self, number: u32) -> (r: LineSegment)
        ensures
            r == self.edge_spec(number),
    {
        let edge_number = number % 4;
        if edge_number == 0 {
            LineSegment::new(self.get_corner(0), self.get_corner(1))
        } else if edge_number == 1 {
            LineSegment::new(self.get_corner(1), self.get_corner(2))
        } else if edge_number == 2 {
            LineSegment::new(self.get_corner(2), self.get_corner(3))
        } else {
            LineSegment::new(self.get_corner(3), self.get_corner(0))
        }
    }

    /// Whether the axis carried by `axis` separates this rectangle from the
    /// segment. `axis_normal_length` must be supplied by the caller as the
    /// euclidean length of `axis.point1 - axis.point2`, computed with the
    /// same subtraction this function performs: the library cannot take
    /// square roots, and the test is exact in the supplied value.
    pub fn has_separating_axis(&self, axis: &LineSegment, axis_normal_length: Scalar) -> (r: bool)
        ensures
            r == self.separating_axis_spec(*axis, axis_normal_length),
    {
        let n = axis.point1().sub(axis.point2());
        let r_edge_0 = self.get_edge(0);
        let r_edge_0_range = r_edge_0.project(n, axis_normal_length);
        let r_edge_2 = self.get_edge(2);
        let r_edge_2_range = r_edge_2.project(n, axis_normal_length);
        let r_projection = r_edge_0_range.hull(r_edge_2_range);
        let axis_range = axis.project(n, axis_normal_length);
        !axis_range.intersects(r_projection)
    }

    /// The smallest axis-aligned rectangle containing both this rectangle
    /// and `p`, rebuilt from fresh minimum and maximum bounds.
    pub fn enlarge_to_point(&self, p: Vec2) -> (r: Rectangle)
        ensures
            r == self.enlarge_spec(p),
    {
        let half = Scalar { bits: HALF_BITS };
        let x = self.left().min(p.x);
        let y = self.bottom().min(p.y);
        let size_x = scalar_sub(self.right().max(p.x), x);
        let size_y = scalar_sub(self.top().max(p.y), y);
        Rectangle::new(
            Vec2::new(scalar_add(x, scalar_mul(size_x, half)), scalar_add(y, scalar_mul(size_y, half))),
            Vec2::new(size_x, size_y),
        )
    }

    /// The bounding circle of the rectangle: centered where the rectangle
    /// is, with the supplied radius. `half_size_length` must be supplied by
    /// the caller as the euclidean length of half the size vector, which
    /// the library cannot compute; the hull is tight only for squares.
    pub fn circle_hull(&self, half_size_length: Scalar) -> (r: Circle)
        ensures
            r.center == self.center,
            r.radius == half_size_length,
    {
        Circle::new(self.center, half_size_length)
    }
}

/// The four corners trace the rectangle consistently with its edges'
/// coordinates: corner zero is (right, bottom), corner one (right, top),
/// corner two (left, top) and corner three (left, bottom).
pub proof fn lemma_corners_consistent(r: Rectangle)
    ensures
        r.corner_spec(0) == (Vec2 { x: r.right_spec(), y: r.bottom_spec() }),
        r.corner_spec(1) == (Vec2 { x: r.right_spec(), y: r.top_spec() }),
        r.corner_spec(2) == (Vec2 { x: r.left_spec(), y: r.top_spec() }),
        r.corner_spec(3) == (Vec2 { x: r.left_spec(), y: r.bottom_spec() }),
{
}

} // verus!
