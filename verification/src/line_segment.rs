use vstd::prelude::*;
use crate::arith::{ONE_BITS, scalar_div, sdiv};
use crate::range::Range;
use crate::scalar::Scalar;
use crate::vector::{Vec2, dot_spec, vscale};

verus! {

/// A bounded line segment between two points.
#[derive(Clone, Copy, PartialEq, Eq, Structural, Debug)]
pub struct LineSegment {
    pub point1: Vec2,
    pub point2: Vec2,
}

/// A vector scaled to unit length by its own euclidean length, which the
/// caller supplies: the vector times the reciprocal of that length.
pub open spec fn normalized_spec(onto: Vec2, onto_length: Scalar) -> Vec2 {
    vscale(onto, sdiv(Scalar { bits: ONE_BITS }, onto_length))
}

impl LineSegment {
    /// The projection of the segment onto the axis `onto`: both endpoints
    /// are dotted against the normalized axis and the resulting interval is
    /// sorted.
    pub open spec fn project_spec(self, onto: Vec2, onto_length: Scalar) -> Range {
        let u = normalized_spec(onto, onto_length);
        (Range { min: dot_spec(u, self.point1), max: dot_spec(u, self.point2) }).sort_spec()
    }

    pub fn new(point1: Vec2, point2: Vec2) -> (r: LineSegment)
        ensures
            r.point1 == point1,
            r.point2 == point2,
    {
        LineSegment { point1, point2 }
    }

    pub fn point1(&self) -> (r: Vec2)
        ensures
            r == self.point1,
    {
        self.point1
    }

    pub fn point2(&self) -> (r: Vec2)
        ensures
            r == self.point2,
    {
        self.point2
    }

    /// Projects the segment onto the axis `onto`, turning it into the
    /// sorted interval of the endpoints' coordinates along that axis.
    /// `onto_length` must be supplied by the caller as the euclidean length
    /// of `onto` (the square root of its squared length): the library
    /// cannot take square roots, and the projection is exact in the
    /// supplied value. A zero-length axis makes the result degenerate, as
    /// normalizing a zero vector is undefined.
    pub fn project(&self, onto: Vec2, onto_length: Scalar) -> (r: Range)
        ensures
            r == self.project_spec(onto, onto_length),
    {
        let onto_unit = onto.scale(scalar_div(Scalar { bits: ONE_BITS }, onto_length));
        let min = onto_unit.dot(self.point1);
        let max = onto_unit.dot(self.point2);
        Range::new(min, max).sort()
    }
}

} // verus!
