use vstd::prelude::*;
use crate::arith::{HALF_BITS, ONE_BITS, POS_ZERO_BITS, mul_bits};
use crate::circle::Circle;
use crate::line_segment::LineSegment;
use crate::rectangle::Rectangle;
use crate::scalar::{
    Scalar, is_finite_bits, is_nan_bits, is_zero_bits, lemma_negate_bits, lemma_plain_constants,
};
use crate::vector::{Rotation, Vec2, rotate_spec, vadd, vneg, vscale, vsub};

verus! {

/// An axis-aligned rectangle together with a counter-clockwise rotation
/// about its center. The rotation carries its angle in degrees and the
/// caller-supplied sine and cosine of that angle; every rotated derivation
/// is exact in those supplied values.
#[derive(Clone, Copy, PartialEq, Eq, Structural, Debug)]
pub struct OrientedRectangle {
    pub rectangle: Rectangle,
    pub rotation: Rotation,
}

impl OrientedRectangle {
    /// Half the rectangle's size: the offset from the center to a corner in
    /// the unrotated frame.
    pub open spec fn half_extend_spec(self) -> Vec2 {
        vscale(self.rectangle.size, Scalar { bits: HALF_BITS })
    }

    /// The corner offset numbered `number` in the unrotated frame, reduced
    /// modulo four: the half-extent with the sign pattern (-, +), (+, +),
    /// (+, -), (-, -) in that order.
    pub open spec fn corner_offset_spec(self, number: u32) -> Vec2 {
        let half = self.half_extend_spec();
        let corner_number = number % 4;
        if corner_number == 0 {
            Vec2 { x: half.x.negate_spec(), y: half.y }
        } else if corner_number == 1 {
            half
        } else if corner_number == 2 {
            Vec2 { x: half.x, y: half.y.negate_spec() }
        } else {
            vneg(half)
        }
    }

    /// The corner numbered `number`: its unrotated offset, rotated by the
    /// stored rotation and translated to the center.
    pub open spec fn corner_spec(self, number: u32) -> Vec2 {
        vadd(
            rotate_spec(self.corner_offset_spec(number), self.rotation.sin, self.rotation.cos),
            self.rectangle.center,
        )
    }

    /// The edge numbered `number`, reduced modulo four: edge `n` joins
    /// corner `n` to corner `n + 1`, wrapping around.
    pub open spec fn edge_spec(self, number: u32) -> LineSegment {
        let edge_number = number % 4;
        if edge_number == 3 {
            LineSegment { point1: self.corner_spec(3), point2: self.corner_spec(0) }
        } else {
            LineSegment {
                point1: self.corner_spec(edge_number),
                point2: self.corner_spec((edge_number + 1) as u32),
            }
        }
    }

    /// Whether the axis carried by `axis_segment` separates this rectangle
    /// from the segment, by the same diagonal-pair projection test as the
    /// axis-aligned case, using the rotated edges zero and two.
    pub open spec fn separating_axis_spec(
        self,
        axis: LineSegment,
        axis_normal_length: Scalar,
    ) -> bool {
        let n = vsub(axis.point1, axis.point2);
        let r0 = self.edge_spec(0).project_spec(n, axis_normal_length);
        let r2 = self.edge_spec(2).project_spec(n, axis_normal_length);
        let axis_range = axis.project_spec(n, axis_normal_length);
        !axis_range.intersects_spec(r0.hull_spec(r2))
    }

    /// The axis-aligned bounding rectangle of the rotated shape: a
    /// zero-size rectangle at the center, enlarged to each of the four
    /// rotated corners in turn.
    pub open spec fn rectangle_hull_spec(self) -> Rectangle {
        let start = Rectangle {
            center: self.rectangle.center,
            size: Vec2 { x: Scalar { bits: POS_ZERO_BITS }, y: Scalar { bits: POS_ZERO_BITS } },
        };
        start.enlarge_spec(self.corner_spec(0)).enlarge_spec(self.corner_spec(1)).enlarge_spec(
            self.corner_spec(2),
        ).enlarge_spec(self.corner_spec(3))
    }

    /// The rectangle in its own unrotated local frame: the same size, with
    /// the center at half the size.
    pub open spec fn to_local_rectangle_spec(self) -> Rectangle {
        Rectangle {
            center: vscale(self.rectangle.size, Scalar { bits: HALF_BITS }),
            size: self.rectangle.size,
        }
    }

    pub fn new(rectangle: Rectangle, rotation: Rotation) -> (r: OrientedRectangle)
        ensures
            r.rectangle == rectangle,
            r.rotation == rotation,
    {
        OrientedRectangle { rectangle, rotation }
    }

    pub fn center(&self) -> (r: Vec2)
        ensures
            r == self.rectangle.center,
    {
        self.rectangle.center()
    }

    pub fn size(&self) -> (r: Vec2)
        ensures
            r == self.rectangle.size,
    {
        self.rectangle.size()
    }

    pub fn half_extend(&self) -> (r: Vec2)
        ensures
            r == self.half_extend_spec(),
    {
        self.rectangle.size().scale(Scalar { bits: HALF_BITS })
    }

    pub fn width(&self) -> (r: Scalar)
        ensures
            r == self.rectangle.width_spec(),
    {
        self.rectangle.width()
    }

    pub fn height(&self) -> (r: Scalar)
        ensures
            r == self.rectangle.height_spec(),
    {
        self.rectangle.height()
    }

    pub fn rotation_in_degrees(&self) -> (r: Scalar)
        ensures
            r == self.rotation.degrees,
    {
        self.rotation.degrees
    }

    /// The corner numbered `number`. For an unrotated rectangle (sine +0.0,
    /// cosine 1.0) with a well-behaved extent, every odd-numbered corner
    /// coincides with the underlying rectangle's corner of the same number;
    /// the even-numbered corners are counted from the opposite diagonal
    /// end, so they land on the rectangle's corners two steps away instead.
    pub fn get_corner(&self, number: u32) -> (r: Vec2)
        ensures
            r == self.corner_spec(number),
            ({
                let hx = mul_bits(self.rectangle.size.x.bits, HALF_BITS);
                let hy = mul_bits(self.rectangle.size.y.bits, HALF_BITS);
                self.rotation.sin.bits == POS_ZERO_BITS && self.rotation.cos.bits == ONE_BITS
                    && number % 2 == 1 && !is_nan_bits(self.rectangle.center.x.bits)
                    && !is_nan_bits(self.rectangle.center.y.bits) && is_finite_bits(hx)
                    && !is_zero_bits(hx) && is_finite_bits(hy) && !is_zero_bits(hy)
            }) ==> r == self.rectangle.corner_spec(number),
    {
        let corner_number = number % 4;
        let half = self.half_extend();
        let c = if corner_number == 0 {
            Vec2::new(half.x.negate(), half.y)
        } else if corner_number == 1 {
            half
        } else if corner_number == 2 {
            Vec2::new(half.x, half.y.negate())
        } else {
            half.neg()
        };
        let c = c.rotate_vector(&self.rotation);
        let result = c.add(self.center());
        proof {
            let hx = mul_bits(self.rectangle.size.x.bits, HALF_BITS);
            let hy = mul_bits(self.rectangle.size.y.bits, HALF_BITS);
            if self.rotation.sin.bits == POS_ZERO_BITS && self.rotation.cos.bits == ONE_BITS
                && number % 2 == 1 && !is_nan_bits(self.rectangle.center.x.bits) && !is_nan_bits(
                self.rectangle.center.y.bits,
            ) && is_finite_bits(hx) && !is_zero_bits(hx) && is_finite_bits(hy) && !is_zero_bits(
                hy,
            ) {
                lemma_plain_constants();
                lemma_negate_bits(hx);
                lemma_negate_bits(hy);
                assert(result == self.rectangle.corner_spec(number));
            }
        }
        result
    }

    /// The edge numbered `number`: the unrotated endpoints of that edge,
    /// each rotated and translated to the center.
    pub fn get_edge(&self, number: u32) -> (r: LineSegment)
        ensures
            r == self.edge_spec(number),
    {
        let edge_number = number % 4;
        let half = self.half_extend();
        let a: Vec2;
        let b: Vec2;
        if edge_number == 0 {
            a = Vec2::new(half.x.negate(), half.y);
            b = half;
        } else if edge_number == 1 {
            a = half;
            b = Vec2::new(half.x, half.y.negate());
        } else if edge_number == 2 {
            a = Vec2::new(half.x, half.y.negate());
            b = half.neg();
        } else {
            a = half.neg();
            b = Vec2::new(half.x.negate(), half.y);
        }
        let a = a.rotate_vector(&self.rotation).add(self.center());
        let b = b.rotate_vector(&self.rotation).add(self.center());
        LineSegment::new(a, b)
    }

    /// Whether the axis carried by `axis` separates this rectangle from the
    /// segment. `axis_normal_length` must be supplied by the caller as the
    /// euclidean length of `axis.point1 - axis.point2`, computed with the
    /// same subtraction this function performs: the library cannot take
    /// square roots, and the test is exact in the supplied value.
    pub fn has_separating_axis(&self, axis: &LineSegment, axis_normal_length: Scalar) -> (r: bool)
        ensures
            r == self.separating_axis_spec(*axis, axis_normal_length),
    {
        let r_edge_0 = self.get_edge(0);
        let r_edge_2 = self.get_edge(2);
        let n = axis.point1().sub(axis.point2());
        let axis_range = axis.project(n, axis_normal_length);
        let r0_range = r_edge_0.project(n, axis_normal_length);
        let r2_range = r_edge_2.project(n, axis_normal_length);
        let r_projection = r0_range.hull(r2_range);
        !axis_range.intersects(r_projection)
    }

    /// The axis-aligned bounding rectangle of the rotated shape, built by
    /// enlarging a zero-size rectangle at the center to each rotated corner
    /// in turn. The bound-by-bound minimum and maximum make the fold's
    /// order immaterial.
    pub fn rectangle_hull(&self) -> (r: Rectangle)
        ensures
            r == self.rectangle_hull_spec(),
    {
        let zero = Scalar { bits: POS_ZERO_BITS };
        let result = Rectangle::new(self.center(), Vec2::new(zero, zero));

        let corner = self.get_corner(0);
        let result = result.enlarge_to_point(corner);

        let corner = self.get_corner(1);
        let result = result.enlarge_to_point(corner);

        let corner = self.get_corner(2);
        let result = result.enlarge_to_point(corner);

        let corner = self.get_corner(3);
        let result = result.enlarge_to_point(corner);

        result
    }

    /// The bounding circle of the rotated rectangle: centered at the
    /// center, with the supplied radius. `half_extent_length` must be
    /// supplied by the caller as the euclidean length of the half-extent
    /// vector, which the library cannot compute. Rotation preserves the
    /// distance from the center to a corner, so this hull is exact and its
    /// radius does not depend on the rotation.
    pub fn circle_hull(&self, half_extent_length: Scalar) -> (r: Circle)
        ensures
            r.center == self.rectangle.center,
            r.radius == half_extent_length,
    {
        Circle::new(self.center(), half_extent_length)
    }

    /// The same shape described in its own unrotated local frame: an
    /// axis-aligned rectangle of the same size whose center sits at half
    /// the size.
    pub fn to_local_rectangle(&self) -> (r: Rectangle)
        ensures
            r == self.to_local_rectangle_spec(),
    {
        Rectangle::new(self.size().scale(Scalar { bits: HALF_BITS }), self.size())
    }
}

/// The bounding circle's radius does not depend on the rotation: two
/// oriented rectangles over the same underlying rectangle have the same
/// half-extent, whose length the bounding circle takes as its radius,
/// whatever their rotations are.
pub proof fn lemma_circle_hull_radius_rotation_invariant(a: OrientedRectangle, b: OrientedRectangle)
    requires
        a.rectangle == b.rectangle,
    ensures
        a.half_extend_spec() == b.half_extend_spec(),
{
}

} // verus!
