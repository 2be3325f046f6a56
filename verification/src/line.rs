use vstd::prelude::*;
use crate::arith::{POS_ZERO_BITS, mul_bits, scalar_mul};
use crate::line_segment::LineSegment;
use crate::scalar::lt_bits;
use crate::vector::{Vec2, dot_spec, is_parallel_spec, rotate_90_spec, vsub};

verus! {

/// An infinite line through a base point along a direction vector. A zero
/// direction makes the parallelism and one-sidedness tests degenerate, as
/// the data model documents.
#[derive(Clone, Copy, PartialEq, Eq, Structural, Debug)]
pub struct Line {
    pub base: Vec2,
    pub direction: Vec2,
}

impl Line {
    /// Whether both endpoints of a segment lie strictly on the same side of
    /// the line: the product of the endpoints' offsets dotted with the
    /// line's normal is strictly positive. A point exactly on the line
    /// makes this false.
    pub open spec fn on_one_side_spec(self, line_segment: LineSegment) -> bool {
        let n = rotate_90_spec(self.direction);
        let d1 = vsub(line_segment.point1, self.base);
        let d2 = vsub(line_segment.point2, self.base);
        lt_bits(POS_ZERO_BITS, mul_bits(dot_spec(n, d1).bits, dot_spec(n, d2).bits))
    }

    /// Whether two lines describe the same set of points: their directions
    /// are parallel within tolerance, and the vector between their bases is
    /// parallel to this line's direction.
    pub open spec fn is_equivalent_spec(self, line: Line) -> bool {
        is_parallel_spec(self.direction, line.direction) && is_parallel_spec(
            vsub(self.base, line.base),
            self.direction,
        )
    }

    pub fn new(base: Vec2, direction: Vec2) -> (r: Line)
        ensures
            r.base == base,
            r.direction == direction,
    {
        Line { base, direction }
    }

    pub fn base(&self) -> (r: Vec2)
        ensures
            r == self.base,
    {
        self.base
    }

    pub fn direction(&self) -> (r: Vec2)
        ensures
            r == self.direction,
    {
        self.direction
    }

    pub fn on_one_side(&self, line_segment: &LineSegment) -> (r: bool)
        ensures
            r == self.on_one_side_spec(*line_segment),
    {
        let d1 = line_segment.point1().sub(self.base);
        let d2 = line_segment.point2().sub(self.base);
        let n = self.direction.rotate_vector_90();
        scalar_mul(n.dot(d1), n.dot(d2)).gt(crate::scalar::Scalar { bits: POS_ZERO_BITS })
    }

    pub fn is_equivalent(&self, line: &Line) -> (r: bool)
        ensures
            r == self.is_equivalent_spec(*line),
    {
        let parallel_vectors = self.direction.is_parallel(line.direction);
        if !parallel_vectors {
            false
        } else {
            let d = self.base.sub(line.base);
            d.is_parallel(self.direction)
        }
    }
}

} // verus!
