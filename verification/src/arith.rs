use vstd::prelude::*;
use crate::scalar::{Scalar, SIGN_MASK, is_nan_bits, is_finite_bits, is_zero_bits, sign_bit};
use rustc_apfloat::Float;
use rustc_apfloat::Round;
use rustc_apfloat::ieee::Single;

verus! {

/// The bit pattern of single-precision 0.5.
pub const HALF_BITS: u32 = 0x3F00_0000;
/// The bit pattern of single-precision 1.0.
pub const ONE_BITS: u32 = 0x3F80_0000;
/// The bit pattern of single-precision 2.0.
pub const TWO_BITS: u32 = 0x4000_0000;
/// The bit pattern of single-precision +0.0.
pub const POS_ZERO_BITS: u32 = 0x0000_0000;
/// The bit pattern of single-precision -0.0.
pub const NEG_ZERO_BITS: u32 = 0x8000_0000;

/// The sum of two single-precision values, rounded to nearest, ties to even.
pub uninterp spec fn add_bits(a: u32, b: u32) -> u32;

/// The difference of two single-precision values, rounded to nearest, ties to even.
pub uninterp spec fn sub_bits(a: u32, b: u32) -> u32;

/// The product of two single-precision values, rounded to nearest, ties to even.
pub uninterp spec fn mul_bits(a: u32, b: u32) -> u32;

/// The quotient of two single-precision values, rounded to nearest, ties to even.
pub uninterp spec fn div_bits(a: u32, b: u32) -> u32;

/// The sum of two scalars.
pub open spec fn sadd(a: Scalar, b: Scalar) -> Scalar {
    Scalar { bits: add_bits(a.bits, b.bits) }
}

/// The difference of two scalars.
pub open spec fn ssub(a: Scalar, b: Scalar) -> Scalar {
    Scalar { bits: sub_bits(a.bits, b.bits) }
}

/// The product of two scalars.
pub open spec fn smul(a: Scalar, b: Scalar) -> Scalar {
    Scalar { bits: mul_bits(a.bits, b.bits) }
}

/// The quotient of two scalars.
pub open spec fn sdiv(a: Scalar, b: Scalar) -> Scalar {
    Scalar { bits: div_bits(a.bits, b.bits) }
}

/// Relies on rustc_apfloat's `Single::add_r` with round to nearest, ties to
/// even: IEEE-754 single-precision addition of the operand bit patterns.
/// The facts beside the defining clause are standard properties of that
/// operation: addition is commutative when neither operand is NaN (an
/// invalid sum yields the one default NaN either way); `a + b` equals
/// `a - (-b)` and `b - (-a)`; adding a zero to a non-NaN value returns that
/// value, except that `-0 + +0` and `+0 + -0` are `+0`; and a finite value
/// plus its own negation is `+0` under round-to-nearest.
#[verifier::external_body]
pub(crate) fn scalar_add(a: Scalar, b: Scalar) -> (r: Scalar)
    ensures
        r.bits == add_bits(a.bits, b.bits),
        !is_nan_bits(a.bits) && !is_nan_bits(b.bits) ==> r.bits == add_bits(b.bits, a.bits),
        !is_nan_bits(a.bits) && !is_nan_bits(b.bits) ==> r.bits == sub_bits(
            a.bits,
            b.bits ^ SIGN_MASK,
        ) && r.bits == sub_bits(b.bits, a.bits ^ SIGN_MASK),
        !is_nan_bits(a.bits) && is_zero_bits(b.bits) ==> r.bits == (if is_zero_bits(a.bits) {
            if a.bits == b.bits {
                a.bits
            } else {
                POS_ZERO_BITS
            }
        } else {
            a.bits
        }),
        !is_nan_bits(b.bits) && is_zero_bits(a.bits) ==> r.bits == (if is_zero_bits(b.bits) {
            if a.bits == b.bits {
                b.bits
            } else {
                POS_ZERO_BITS
            }
        } else {
            b.bits
        }),
        is_finite_bits(a.bits) && b.bits == a.bits ^ SIGN_MASK ==> r.bits == POS_ZERO_BITS,
{
    let x = Single::from_bits(a.bits as u128);
    let y = Single::from_bits(b.bits as u128);
    Scalar { bits: x.add_r(y, Round::NearestTiesToEven).value.to_bits() as u32 }
}

/// Relies on rustc_apfloat's `Single::sub_r` with round to nearest, ties to
/// even: IEEE-754 single-precision subtraction of the operand bit patterns.
/// The facts beside the defining clause are standard properties of that
/// operation: `a - b` equals `a + (-b)`, and subtracting a zero from a
/// non-NaN value returns that value, except that `-0 - -0` is `+0`.
#[verifier::external_body]
pub(crate) fn scalar_sub(a: Scalar, b: Scalar) -> (r: Scalar)
    ensures
        r.bits == sub_bits(a.bits, b.bits),
        !is_nan_bits(a.bits) && !is_nan_bits(b.bits) ==> r.bits == add_bits(
            a.bits,
            b.bits ^ SIGN_MASK,
        ),
        !is_nan_bits(a.bits) && is_zero_bits(b.bits) ==> r.bits == (if a.bits == NEG_ZERO_BITS
            && b.bits == NEG_ZERO_BITS {
            POS_ZERO_BITS
        } else {
            a.bits
        }),
{
    let x = Single::from_bits(a.bits as u128);
    let y = Single::from_bits(b.bits as u128);
    Scalar { bits: x.sub_r(y, Round::NearestTiesToEven).value.to_bits() as u32 }
}

/// Relies on rustc_apfloat's `Single::mul_r` with round to nearest, ties to
/// even: IEEE-754 single-precision multiplication of the operand bit
/// patterns. The facts beside the defining clause are standard properties
/// of that operation: multiplication is commutative when neither operand is
/// NaN; whether the product is NaN does not depend on an operand's sign;
/// flipping one operand's sign flips the sign of a product that is not NaN;
/// multiplying a non-NaN value by 1.0 returns that value; and a finite
/// value times +0.0 is the zero whose sign is the value's sign.
#[verifier::external_body]
pub(crate) fn scalar_mul(a: Scalar, b: Scalar) -> (r: Scalar)
    ensures
        r.bits == mul_bits(a.bits, b.bits),
        !is_nan_bits(a.bits) && !is_nan_bits(b.bits) ==> r.bits == mul_bits(b.bits, a.bits),
        is_nan_bits(r.bits) == is_nan_bits(mul_bits(a.bits, b.bits ^ SIGN_MASK)),
        is_nan_bits(r.bits) == is_nan_bits(mul_bits(a.bits ^ SIGN_MASK, b.bits)),
        !is_nan_bits(r.bits) ==> mul_bits(a.bits, b.bits ^ SIGN_MASK) == r.bits ^ SIGN_MASK,
        !is_nan_bits(r.bits) ==> mul_bits(a.bits ^ SIGN_MASK, b.bits) == r.bits ^ SIGN_MASK,
        !is_nan_bits(b.bits) && a.bits == ONE_BITS ==> r.bits == b.bits,
        !is_nan_bits(a.bits) && b.bits == ONE_BITS ==> r.bits == a.bits,
        is_finite_bits(a.bits) && b.bits == POS_ZERO_BITS ==> r.bits == (if sign_bit(a.bits) {
            NEG_ZERO_BITS
        } else {
            POS_ZERO_BITS
        }),
{
    let x = Single::from_bits(a.bits as u128);
    let y = Single::from_bits(b.bits as u128);
    Scalar { bits: x.mul_r(y, Round::NearestTiesToEven).value.to_bits() as u32 }
}

/// Relies on rustc_apfloat's `Single::div_r` with round to nearest, ties to
/// even: IEEE-754 single-precision division of the operand bit patterns.
#[verifier::external_body]
pub(crate) fn scalar_div(a: Scalar, b: Scalar) -> (r: Scalar)
    ensures
        r.bits == div_bits(a.bits, b.bits),
{
    let x = Single::from_bits(a.bits as u128);
    let y = Single::from_bits(b.bits as u128);
    Scalar { bits: x.div_r(y, Round::NearestTiesToEven).value.to_bits() as u32 }
}

} // verus!
