use vstd::prelude::*;
use crate::arith::{
    ONE_BITS, POS_ZERO_BITS, mul_bits, sadd, scalar_add, scalar_div, scalar_mul, scalar_sub,
    sdiv, smul, ssub, sub_bits,
};
use crate::scalar::{
    MAG_MASK, SIGN_MASK, Scalar, is_finite_bits, is_nan_bits, is_zero_bits, le_bits,
    lemma_negate_bits, lt_bits,
};

verus! {

/// The bit pattern of the default tolerance for the parallelism test: the
/// single-precision machine epsilon.
pub const MARGIN_EPSILON_BITS: u32 = 0x3400_0000;

/// The default tolerance of the parallelism test in units of least
/// precision.
pub const MARGIN_ULPS: u32 = 4;

/// A two-component vector of scalar coordinates, used both as a point and
/// as a free vector.
#[derive(Clone, Copy, PartialEq, Eq, Structural, Debug)]
pub struct Vec2 {
    pub x: Scalar,
    pub y: Scalar,
}

/// An angle in degrees together with its sine and cosine. The caller
/// supplies all three: evaluating the trigonometric functions is left to
/// the surrounding program, since their low bits depend on the platform's
/// mathematics library, and every derivation here is exact in the supplied
/// values.
#[derive(Clone, Copy, PartialEq, Eq, Structural, Debug)]
pub struct Rotation {
    pub degrees: Scalar,
    pub sin: Scalar,
    pub cos: Scalar,
}

impl Rotation {
    pub fn new(degrees: Scalar, sin: Scalar, cos: Scalar) -> (r: Rotation)
        ensures
            r.degrees == degrees,
            r.sin == sin,
            r.cos == cos,
    {
        Rotation { degrees, sin, cos }
    }
}

/// The componentwise sum of two vectors.
pub open spec fn vadd(a: Vec2, b: Vec2) -> Vec2 {
    Vec2 { x: sadd(a.x, b.x), y: sadd(a.y, b.y) }
}

/// The componentwise difference of two vectors.
pub open spec fn vsub(a: Vec2, b: Vec2) -> Vec2 {
    Vec2 { x: ssub(a.x, b.x), y: ssub(a.y, b.y) }
}

/// The componentwise negation of a vector.
pub open spec fn vneg(a: Vec2) -> Vec2 {
    Vec2 { x: a.x.negate_spec(), y: a.y.negate_spec() }
}

/// A vector scaled by a scalar, component by component.
pub open spec fn vscale(a: Vec2, s: Scalar) -> Vec2 {
    Vec2 { x: smul(a.x, s), y: smul(a.y, s) }
}

/// The dot product of two vectors: the products of matching components,
/// summed.
pub open spec fn dot_spec(a: Vec2, b: Vec2) -> Scalar {
    sadd(smul(a.x, b.x), smul(a.y, b.y))
}

/// The vector rotated a quarter turn counter-clockwise.
pub open spec fn rotate_90_spec(a: Vec2) -> Vec2 {
    Vec2 { x: a.y.negate_spec(), y: a.x }
}

/// The vector rotated by an angle with the given sine and cosine, by the
/// standard rotation matrix.
pub open spec fn rotate_spec(a: Vec2, sin: Scalar, cos: Scalar) -> Vec2 {
    Vec2 {
        x: ssub(smul(a.x, cos), smul(a.y, sin)),
        y: sadd(smul(a.x, sin), smul(a.y, cos)),
    }
}

/// A bit pattern remapped so that, read as an unsigned integer, it is
/// ordered as the encoded values are: the sign bit is flipped for
/// non-negative patterns and all bits for negative ones.
pub open spec fn ordered_bits(bits: u32) -> u32 {
    if bits >= SIGN_MASK {
        !bits
    } else {
        bits ^ SIGN_MASK
    }
}

/// Whether a value is within `MARGIN_ULPS` representable steps of zero,
/// measured on the order-remapped patterns with wraparound, as the
/// unit-in-the-last-place test of the tolerance comparison counts it.
pub open spec fn ulps_close_to_zero(bits: u32) -> bool {
    if ordered_bits(bits) <= SIGN_MASK {
        SIGN_MASK - ordered_bits(bits) <= MARGIN_ULPS
    } else {
        ordered_bits(bits) - SIGN_MASK <= MARGIN_ULPS
    }
}

/// Whether a value counts as approximately zero under the default margin:
/// exactly zero, or within the epsilon tolerance in absolute value, or
/// within the ulps tolerance of zero. This is the tolerance comparison the
/// parallelism test uses; it mirrors float-cmp's approximate equality for
/// single-precision values against zero with its default margin.
pub open spec fn approx_zero_spec(d: Scalar) -> bool {
    is_zero_bits(d.bits) || le_bits(d.absolute_spec().bits, MARGIN_EPSILON_BITS)
        || ulps_close_to_zero(d.bits)
}

/// Whether two vectors are parallel within tolerance: the dot product of
/// the first vector's quarter-turn rotation with the second is
/// approximately zero.
pub open spec fn is_parallel_spec(a: Vec2, b: Vec2) -> bool {
    approx_zero_spec(dot_spec(rotate_90_spec(a), b))
}

/// The projection of `a` onto `onto`: `onto` scaled by the ratio of the two
/// dot products. When `onto` has a squared length that is not positive, the
/// projection degenerates to `onto` itself.
pub open spec fn project_spec(a: Vec2, onto: Vec2) -> Vec2 {
    let d = dot_spec(onto, onto);
    if lt_bits(POS_ZERO_BITS, d.bits) {
        Vec2 {
            x: sdiv(smul(onto.x, dot_spec(a, onto)), d),
            y: sdiv(smul(onto.y, dot_spec(a, onto)), d),
        }
    } else {
        onto
    }
}

impl Vec2 {
    pub fn new(x: Scalar, y: Scalar) -> (r: Vec2)
        ensures
            r.x == x,
            r.y == y,
    {
        Vec2 { x, y }
    }

    /// The componentwise sum. When no component is NaN, each component of
    /// the sum can also be read with the operands exchanged, or as a
    /// subtraction of the negated operand.
    pub fn add(self, b: Vec2) -> (r: Vec2)
        ensures
            r == vadd(self, b),
            !is_nan_bits(self.x.bits) && !is_nan_bits(b.x.bits) ==> r.x == sadd(b.x, self.x)
                && r.x.bits == sub_bits(b.x.bits, self.x.bits ^ SIGN_MASK),
            !is_nan_bits(self.y.bits) && !is_nan_bits(b.y.bits) ==> r.y == sadd(b.y, self.y)
                && r.y.bits == sub_bits(b.y.bits, self.y.bits ^ SIGN_MASK),
    {
        Vec2 { x: scalar_add(self.x, b.x), y: scalar_add(self.y, b.y) }
    }

    pub fn sub(self, b: Vec2) -> (r: Vec2)
        ensures
            r == vsub(self, b),
    {
        Vec2 { x: scalar_sub(self.x, b.x), y: scalar_sub(self.y, b.y) }
    }

    pub fn neg(self) -> (r: Vec2)
        ensures
            r == vneg(self),
    {
        Vec2 { x: self.x.negate(), y: self.y.negate() }
    }

    pub fn scale(self, s: Scalar) -> (r: Vec2)
        ensures
            r == vscale(self, s),
    {
        Vec2 { x: scalar_mul(self.x, s), y: scalar_mul(self.y, s) }
    }

    /// The dot product. When the second vector is the quarter-turn rotation
    /// of the first, the components are not NaN and their product is
    /// finite, the result is exactly +0.0: each cross term cancels its
    /// negation under round-to-nearest.
    pub fn dot(self, b: Vec2) -> (r: Scalar)
        ensures
            r == dot_spec(self, b),
            (b == rotate_90_spec(self) && !is_nan_bits(self.x.bits) && !is_nan_bits(self.y.bits)
                && is_finite_bits(mul_bits(self.x.bits, self.y.bits))) ==> r.bits == POS_ZERO_BITS,
    {
        let m1 = scalar_mul(self.x, b.x);
        let m2 = scalar_mul(self.y, b.y);
        proof {
            if b == rotate_90_spec(self) && !is_nan_bits(self.x.bits) && !is_nan_bits(self.y.bits)
                && is_finite_bits(mul_bits(self.x.bits, self.y.bits)) {
                lemma_negate_bits(self.y.bits);
                lemma_negate_bits(mul_bits(self.x.bits, self.y.bits));
                lemma_negate_bits(m1.bits);
                assert(m2.bits == mul_bits(self.x.bits, self.y.bits));
                assert(!is_nan_bits(m1.bits));
                assert(m1.bits == mul_bits(self.x.bits, self.y.bits) ^ SIGN_MASK);
                assert(is_finite_bits(m1.bits));
                assert(m2.bits == m1.bits ^ SIGN_MASK);
            }
        }
        scalar_add(m1, m2)
    }

    /// The vector rotated a quarter turn counter-clockwise: an exact
    /// special case of rotation, computed by swapping components and
    /// negating one.
    pub fn rotate_vector_90(self) -> (r: Vec2)
        ensures
            r == rotate_90_spec(self),
    {
        Vec2 { x: self.y.negate(), y: self.x }
    }

    /// The vector rotated counter-clockwise by the given rotation's angle,
    /// using its supplied sine and cosine. A rotation whose sine is +0.0
    /// and whose cosine is 1.0 is the identity on vectors with finite,
    /// nonzero components: each cross term is a signed zero that the
    /// matching component absorbs.
    pub fn rotate_vector(self, rotation: &Rotation) -> (r: Vec2)
        ensures
            r == rotate_spec(self, rotation.sin, rotation.cos),
            (rotation.sin.bits == POS_ZERO_BITS && rotation.cos.bits == ONE_BITS
                && is_finite_bits(self.x.bits) && !is_zero_bits(self.x.bits) && is_finite_bits(
                self.y.bits,
            ) && !is_zero_bits(self.y.bits)) ==> r == self,
    {
        let x = scalar_sub(scalar_mul(self.x, rotation.cos), scalar_mul(self.y, rotation.sin));
        let y = scalar_add(scalar_mul(self.x, rotation.sin), scalar_mul(self.y, rotation.cos));
        proof {
            if rotation.sin.bits == POS_ZERO_BITS && rotation.cos.bits == ONE_BITS
                && is_finite_bits(self.x.bits) && !is_zero_bits(self.x.bits) && is_finite_bits(
                self.y.bits,
            ) && !is_zero_bits(self.y.bits) {
                crate::scalar::lemma_plain_constants();
                assert(x == self.x);
                assert(y == self.y);
            }
        }
        Vec2 { x, y }
    }

    /// Whether this vector and `b` are parallel within the default
    /// tolerance.
    pub fn is_parallel(self, b: Vec2) -> (r: bool)
        ensures
            r == is_parallel_spec(self, b),
    {
        let na = self.rotate_vector_90();
        let dot_product = na.dot(b);
        approx_zero(dot_product)
    }

    /// The projection of this vector onto `onto`, degenerating to `onto`
    /// itself when `onto`'s squared length is not positive.
    pub fn project(self, onto: Vec2) -> (r: Vec2)
        ensures
            r == project_spec(self, onto),
    {
        let d = onto.dot(onto);
        if (Scalar { bits: POS_ZERO_BITS }).lt(d) {
            let dp = self.dot(onto);
            Vec2 { x: scalar_div(scalar_mul(onto.x, dp), d), y: scalar_div(
                scalar_mul(onto.y, dp),
                d,
            ) }
        } else {
            onto
        }
    }
}

/// Whether a scalar is approximately zero under the default margin.
pub fn approx_zero(d: Scalar) -> (r: bool)
    ensures
        r == approx_zero_spec(d),
{
    if d.bits & MAG_MASK == 0 {
        return true;
    }
    let eps = Scalar { bits: MARGIN_EPSILON_BITS };
    if d.absolute().le(eps) {
        return true;
    }
    let o: u32 = if d.bits >= SIGN_MASK {
        !d.bits
    } else {
        d.bits ^ SIGN_MASK
    };
    if o <= SIGN_MASK {
        SIGN_MASK - o <= MARGIN_ULPS
    } else {
        o - SIGN_MASK <= MARGIN_ULPS
    }
}

} // verus!
