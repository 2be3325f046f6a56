use vstd::prelude::*;

verus! {

/// Mask of the sign bit of an IEEE-754 single-precision bit pattern.
pub const SIGN_MASK: u32 = 0x8000_0000;
/// Mask of the magnitude (exponent and fraction) of a single-precision bit pattern.
pub const MAG_MASK: u32 = 0x7FFF_FFFF;
/// Mask of the exponent field of a single-precision bit pattern.
pub const EXP_MASK: u32 = 0x7F80_0000;
/// Mask of the fraction field of a single-precision bit pattern.
pub const FRAC_MASK: u32 = 0x007F_FFFF;

/// A scalar coordinate, held as the bit pattern of an IEEE-754 single-precision
/// value. Ordering and classification are decided here from the bits alone:
/// for patterns that are not NaN, the numeric order of the values equals the
/// order of the patterns read as sign-magnitude integers, with the two zeros
/// equal, so comparisons need no floating-point unit.
#[derive(Clone, Copy, PartialEq, Eq, Structural, Debug)]
pub struct Scalar {
    pub bits: u32,
}

/// The magnitude field of a bit pattern: everything but the sign.
pub open spec fn mag_bits(bits: u32) -> u32 {
    bits & MAG_MASK
}

/// Whether the sign bit of a pattern is set.
pub open spec fn sign_bit(bits: u32) -> bool {
    bits >= SIGN_MASK
}

/// The pattern read as a sign-magnitude integer. For patterns that are not
/// NaN this is ordered exactly as the encoded values are, and both zeros map
/// to zero.
pub open spec fn key(bits: u32) -> int {
    if sign_bit(bits) {
        -(mag_bits(bits) as int)
    } else {
        mag_bits(bits) as int
    }
}

/// A pattern encodes NaN when the exponent field is all ones and the
/// fraction field is not zero.
pub open spec fn is_nan_bits(bits: u32) -> bool {
    bits & EXP_MASK == EXP_MASK && bits & FRAC_MASK != 0
}

/// A pattern encodes a finite value when the exponent field is not all ones.
pub open spec fn is_finite_bits(bits: u32) -> bool {
    bits & EXP_MASK != EXP_MASK
}

/// A pattern encodes one of the two zeros.
pub open spec fn is_zero_bits(bits: u32) -> bool {
    mag_bits(bits) == 0
}

/// Numeric less-than of two encoded values: false whenever either is NaN.
pub open spec fn lt_bits(a: u32, b: u32) -> bool {
    !is_nan_bits(a) && !is_nan_bits(b) && key(a) < key(b)
}

/// Numeric less-or-equal of two encoded values: false whenever either is NaN.
pub open spec fn le_bits(a: u32, b: u32) -> bool {
    !is_nan_bits(a) && !is_nan_bits(b) && key(a) <= key(b)
}

impl Scalar {
    pub open spec fn is_nan_spec(self) -> bool {
        is_nan_bits(self.bits)
    }

    pub open spec fn is_finite_spec(self) -> bool {
        is_finite_bits(self.bits)
    }

    pub open spec fn is_zero_spec(self) -> bool {
        is_zero_bits(self.bits)
    }

    /// The negation of an encoded value: the same pattern with the sign
    /// bit flipped.
    pub open spec fn negate_spec(self) -> Scalar {
        Scalar { bits: self.bits ^ SIGN_MASK }
    }

    /// The absolute value of an encoded value: the same pattern with the
    /// sign bit cleared.
    pub open spec fn absolute_spec(self) -> Scalar {
        Scalar { bits: self.bits & MAG_MASK }
    }

    pub fn from_bits(bits: u32) -> (r: Scalar)
        ensures
            r.bits == bits,
    {
        Scalar { bits }
    }

    pub fn bits(self) -> (r: u32)
        ensures
            r == self.bits,
    {
        self.bits
    }

    pub fn is_nan(self) -> (r: bool)
        ensures
            r == self.is_nan_spec(),
    {
        self.bits & EXP_MASK == EXP_MASK && self.bits & FRAC_MASK != 0
    }

    pub fn is_finite(self) -> (r: bool)
        ensures
            r == self.is_finite_spec(),
    {
        self.bits & EXP_MASK != EXP_MASK
    }

    fn key_i64(self) -> (k: i64)
        ensures
            k == key(self.bits),
    {
        let mag: u32 = self.bits & MAG_MASK;
        if self.bits >= SIGN_MASK {
            -(mag as i64)
        } else {
            mag as i64
        }
    }

    pub fn lt(self, other: Scalar) -> (r: bool)
        ensures
            r == lt_bits(self.bits, other.bits),
    {
        if self.is_nan() || other.is_nan() {
            false
        } else {
            self.key_i64() < other.key_i64()
        }
    }

    pub fn le(self, other: Scalar) -> (r: bool)
        ensures
            r == le_bits(self.bits, other.bits),
    {
        if self.is_nan() || other.is_nan() {
            false
        } else {
            self.key_i64() <= other.key_i64()
        }
    }

    pub fn gt(self, other: Scalar) -> (r: bool)
        ensures
            r == lt_bits(other.bits, self.bits),
    {
        other.lt(self)
    }

    pub fn ge(self, other: Scalar) -> (r: bool)
        ensures
            r == le_bits(other.bits, self.bits),
    {
        other.le(self)
    }

    /// The smaller of two encoded values, as single-precision `min` decides
    /// it: a NaN argument yields the other argument; when the two zeros
    /// meet, the left argument is returned.
    pub open spec fn min_spec(self, other: Scalar) -> Scalar {
        if is_nan_bits(self.bits) {
            other
        } else if is_nan_bits(other.bits) {
            self
        } else if key(self.bits) <= key(other.bits) {
            self
        } else {
            other
        }
    }

    /// The larger of two encoded values, as single-precision `max` decides
    /// it: a NaN argument yields the other argument; when the two zeros
    /// meet, the left argument is returned.
    pub open spec fn max_spec(self, other: Scalar) -> Scalar {
        if is_nan_bits(self.bits) {
            other
        } else if is_nan_bits(other.bits) {
            self
        } else if key(self.bits) >= key(other.bits) {
            self
        } else {
            other
        }
    }

    /// The value clamped into `[lo, hi]`: a NaN value passes through
    /// unchanged. Meaningful only when `lo <= hi`, as the executable
    /// counterpart requires.
    pub open spec fn clamp_spec(self, lo: Scalar, hi: Scalar) -> Scalar {
        if lt_bits(self.bits, lo.bits) {
            lo
        } else if lt_bits(hi.bits, self.bits) {
            hi
        } else {
            self
        }
    }

    pub fn min(self, other: Scalar) -> (r: Scalar)
        ensures
            r == self.min_spec(other),
    {
        if self.is_nan() {
            other
        } else if other.is_nan() {
            self
        } else if self.le(other) {
            self
        } else {
            other
        }
    }

    pub fn max(self, other: Scalar) -> (r: Scalar)
        ensures
            r == self.max_spec(other),
    {
        if self.is_nan() {
            other
        } else if other.is_nan() {
            self
        } else if self.ge(other) {
            self
        } else {
            other
        }
    }

    /// Clamps the value into `[lo, hi]`. Single-precision `clamp` panics on
    /// an unordered or NaN bound, so those bounds are excluded here.
    pub fn clamp(self, lo: Scalar, hi: Scalar) -> (r: Scalar)
        requires
            !is_nan_bits(lo.bits),
            !is_nan_bits(hi.bits),
            key(lo.bits) <= key(hi.bits),
        ensures
            r == self.clamp_spec(lo, hi),
    {
        if self.lt(lo) {
            lo
        } else if self.gt(hi) {
            hi
        } else {
            self
        }
    }

    pub fn negate(self) -> (r: Scalar)
        ensures
            r == self.negate_spec(),
    {
        Scalar { bits: self.bits ^ SIGN_MASK }
    }

    pub fn absolute(self) -> (r: Scalar)
        ensures
            r == self.absolute_spec(),
    {
        Scalar { bits: self.bits & MAG_MASK }
    }
}

/// Flipping the sign bit keeps the magnitude, exponent and fraction fields,
/// flips the sign, negates the ordering key, and keeps NaN-ness.
pub proof fn lemma_negate_bits(b: u32)
    ensures
        mag_bits(b ^ SIGN_MASK) == mag_bits(b),
        sign_bit(b ^ SIGN_MASK) == !sign_bit(b),
        is_nan_bits(b ^ SIGN_MASK) == is_nan_bits(b),
        is_finite_bits(b ^ SIGN_MASK) == is_finite_bits(b),
        key(b ^ SIGN_MASK) == -key(b),
        (b ^ SIGN_MASK) ^ SIGN_MASK == b,
{
    assert(((b ^ 0x8000_0000) ^ 0x8000_0000) == b) by (bit_vector);
    assert((b ^ 0x8000_0000) & 0x7FFF_FFFF == b & 0x7FFF_FFFF) by (bit_vector);
    assert((b ^ 0x8000_0000 >= 0x8000_0000) == !(b >= 0x8000_0000)) by (bit_vector);
    assert((b ^ 0x8000_0000) & 0x7F80_0000 == b & 0x7F80_0000) by (bit_vector);
    assert((b ^ 0x8000_0000) & 0x007F_FFFF == b & 0x007F_FFFF) by (bit_vector);
}

/// The two zero patterns have zero magnitude, are finite and are not NaN,
/// and the pattern of 1.0 is finite and not NaN.
pub proof fn lemma_plain_constants()
    ensures
        is_zero_bits(0x0000_0000u32),
        is_zero_bits(0x8000_0000u32),
        !is_nan_bits(0x0000_0000u32),
        !is_nan_bits(0x8000_0000u32),
        is_finite_bits(0x0000_0000u32),
        is_finite_bits(0x8000_0000u32),
        !is_nan_bits(0x3F80_0000u32),
        is_finite_bits(0x3F80_0000u32),
{
    assert(0x0000_0000u32 & 0x7FFF_FFFF == 0) by (bit_vector);
    assert(0x8000_0000u32 & 0x7FFF_FFFF == 0) by (bit_vector);
    assert(0x0000_0000u32 & 0x7F80_0000 != 0x7F80_0000) by (bit_vector);
    assert(0x8000_0000u32 & 0x7F80_0000 != 0x7F80_0000) by (bit_vector);
    assert(0x3F80_0000u32 & 0x7F80_0000 != 0x7F80_0000) by (bit_vector);
}

} // verus!
