use vstd::prelude::*;
use crate::scalar::{Scalar, is_nan_bits, le_bits, lt_bits};

verus! {

/// A one-dimensional closed interval between two scalar bounds. The bounds
/// need not be ordered at construction; `sort` produces the ordered form
/// that `intersects` and `hull` expect.
#[derive(Clone, Copy, PartialEq, Eq, Structural, Debug)]
pub struct Range {
    pub min: Scalar,
    pub max: Scalar,
}

impl Range {
    pub open spec fn min_spec(self) -> Scalar {
        self.min
    }

    pub open spec fn max_spec(self) -> Scalar {
        self.max
    }

    /// Whether the two closed intervals overlap; touching endpoints count.
    /// False whenever a compared endpoint is NaN.
    pub open spec fn intersects_spec(self, b: Range) -> bool {
        le_bits(b.min.bits, self.max.bits) && le_bits(self.min.bits, b.max.bits)
    }

    /// Inclusive membership of a value in the interval.
    pub open spec fn contains_spec(self, f: Scalar) -> bool {
        le_bits(self.min.bits, f.bits) && le_bits(f.bits, self.max.bits)
    }

    /// The interval with its bounds swapped when they compare out of order.
    /// Bounds that do not compare (a NaN) are left as they are.
    pub open spec fn sort_spec(self) -> Range {
        if lt_bits(self.max.bits, self.min.bits) {
            Range { min: self.max, max: self.min }
        } else {
            self
        }
    }

    /// The smallest interval containing both intervals, taken bound by
    /// bound.
    pub open spec fn hull_spec(self, b: Range) -> Range {
        Range {
            min: if lt_bits(self.min.bits, b.min.bits) {
                self.min
            } else {
                b.min
            },
            max: if lt_bits(b.max.bits, self.max.bits) {
                self.max
            } else {
                b.max
            },
        }
    }

    pub fn new(min: Scalar, max: Scalar) -> (r: Range)
        ensures
            r.min_spec() == min,
            r.max_spec() == max,
    {
        Range { min, max }
    }

    pub fn min(&self) -> (r: Scalar)
        ensures
            r == self.min_spec(),
    {
        self.min
    }

    pub fn max(&self) -> (r: Scalar)
        ensures
            r == self.max_spec(),
    {
        self.max
    }

    pub fn intersects(&self, b: Range) -> (r: bool)
        ensures
            r == self.intersects_spec(b),
    {
        b.min.le(self.max) && self.min.le(b.max)
    }

    pub fn contains(&self, f: Scalar) -> (r: bool)
        ensures
            r == self.contains_spec(f),
    {
        f.ge(self.min) && f.le(self.max)
    }

    pub fn sort(&self) -> (r: Range)
        ensures
            r == self.sort_spec(),
            !is_nan_bits(self.min.bits) && !is_nan_bits(self.max.bits) ==> le_bits(
                r.min.bits,
                r.max.bits,
            ),
    {
        if self.min.gt(self.max) {
            Range { min: self.max, max: self.min }
        } else {
            Range { min: self.min, max: self.max }
        }
    }

    pub fn hull(&self, b: Range) -> (r: Range)
        ensures
            r == self.hull_spec(b),
    {
        let hull_minimum = if self.min.lt(b.min) {
            self.min
        } else {
            b.min
        };
        let hull_maximum = if self.max.gt(b.max) {
            self.max
        } else {
            b.max
        };
        Range { min: hull_minimum, max: hull_maximum }
    }
}

/// Sorting a range whose bounds are not NaN orders them: the sorted lower
/// bound is at most the sorted upper bound.
pub proof fn lemma_sort_ordered(a: Range)
    requires
        !is_nan_bits(a.min_spec().bits),
        !is_nan_bits(a.max_spec().bits),
    ensures
        le_bits(a.sort_spec().min_spec().bits, a.sort_spec().max_spec().bits),
{
}

/// The hull of two ranges with non-NaN bounds contains every value that
/// either range contains.
pub proof fn lemma_hull_contains(a: Range, b: Range, x: Scalar)
    requires
        !is_nan_bits(a.min_spec().bits),
        !is_nan_bits(a.max_spec().bits),
        !is_nan_bits(b.min_spec().bits),
        !is_nan_bits(b.max_spec().bits),
        a.contains_spec(x) || b.contains_spec(x),
    ensures
        a.hull_spec(b).contains_spec(x),
{
}

/// Range intersection is symmetric: `a` intersects `b` exactly when `b`
/// intersects `a`.
pub proof fn lemma_intersects_symmetric(a: Range, b: Range)
    ensures
        a.intersects_spec(b) == b.intersects_spec(a),
{
}

} // verus!
