use vstd::prelude::*;
use crate::arith::{TWO_BITS, scalar_mul, smul};
use crate::rectangle::Rectangle;
use crate::scalar::Scalar;
use crate::vector::Vec2;

verus! {

/// A circle given by its center and radius. The radius is expected to be
/// non-negative but is not enforced, matching the data model.
#[derive(Clone, Copy, PartialEq, Eq, Structural, Debug)]
pub struct Circle {
    pub center: Vec2,
    pub radius: Scalar,
}

impl Circle {
    /// The axis-aligned bounding square of the circle: same center, each
    /// side twice the radius. This hull is exact, not an approximation.
    pub open spec fn rectangle_hull_spec(self) -> Rectangle {
        Rectangle {
            center: self.center,
            size: Vec2 {
                x: smul(self.radius, Scalar { bits: TWO_BITS }),
                y: smul(self.radius, Scalar { bits: TWO_BITS }),
            },
        }
    }

    pub fn new(center: Vec2, radius: Scalar) -> (r: Circle)
        ensures
            r.center == center,
            r.radius == radius,
    {
        Circle { center, radius }
    }

    pub fn center(&self) -> (r: Vec2)
        ensures
            r == self.center,
    {
        self.center
    }

    pub fn radius(&self) -> (r: Scalar)
        ensures
            r == self.radius,
    {
        self.radius
    }

    /// The smallest axis-aligned rectangle containing the circle: centered
    /// where the circle is, with width and height both twice the radius.
    pub fn rectangle_hull(&self) -> (r: Rectangle)
        ensures
            r == self.rectangle_hull_spec(),
    {
        let two = Scalar { bits: TWO_BITS };
        Rectangle::new(self.center, Vec2::new(scalar_mul(self.radius, two), scalar_mul(self.radius, two)))
    }
}

} // verus!
