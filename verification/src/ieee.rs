//! IEEE 754 binary64 arithmetic over raw bit patterns.
//!
//! Every sample in this library is a `u64` holding the bit pattern of an
//! IEEE 754 double-precision number. The arithmetic on those samples is
//! done in software by the `softfp` crate, whose basic operations are
//! exactly rounded and therefore a pure function of the operand bit
//! patterns. Each operation's result is given
//! a name (an uninterpreted spec function over bit patterns), so verified
//! code can state exactly which operations were applied, in which order,
//! without axiomatizing IEEE 754 itself.
//!
//! All operations round to nearest, ties to even — the IEEE 754 default
//! rounding, and the one the basic arithmetic of every mainstream
//! platform uses.

use vstd::prelude::*;

verus! {

// softfp reads its rounding mode, and reports its exception flags,
// through registered callbacks; the two types below and the two
// functions after them let every wrapper register the IEEE defaults
// (round to nearest, ties to even; exceptions ignored) before it calls
// into the crate.

#[verifier::external_type_specification]
#[verifier::external_body]
pub struct ExRoundingMode(softfp::RoundingMode);

#[verifier::external_type_specification]
#[verifier::external_body]
pub struct ExExceptionFlags(softfp::ExceptionFlags);

/// Relies on `softfp::RoundingMode`: hands back the IEEE 754 default
/// rounding mode, to nearest with ties to even.
#[verifier::external_body]
fn ties_to_even() -> softfp::RoundingMode {
    softfp::RoundingMode::TiesToEven
}

/// Callback handed to `softfp::register_set_exception_flags`: the
/// library reads no exception flags, so they are discarded.
#[verifier::external_body]
fn ignore_flags(_flags: softfp::ExceptionFlags) {
}

/// Bit pattern of positive zero.
pub const POS_ZERO_BITS: u64 = 0;

/// Bit pattern of one.
pub const ONE_BITS: u64 = 0x3FF0000000000000;

/// Bit pattern of ten.
pub const TEN_BITS: u64 = 0x4024000000000000;

/// Bit pattern of one hundred.
pub const HUNDRED_BITS: u64 = 0x4059000000000000;

/// Bit pattern of negative zero.
pub const NEG_ZERO_BITS: u64 = 0x8000000000000000;

/// Bit pattern of the largest finite binary64 number.
pub const MAX_BITS: u64 = 0x7FEFFFFFFFFFFFFF;

/// Bit pattern of the most negative finite binary64 number.
pub const NEG_MAX_BITS: u64 = 0xFFEFFFFFFFFFFFFF;

/// The bit pattern of the IEEE 754 binary64 sum of the numbers with bit
/// patterns `a` and `b`, rounded to nearest (ties to even).
pub uninterp spec fn add_bits(a: u64, b: u64) -> u64;

/// The bit pattern of the IEEE 754 binary64 difference of the numbers
/// with bit patterns `a` and `b`, rounded to nearest (ties to even).
pub uninterp spec fn sub_bits(a: u64, b: u64) -> u64;

/// The bit pattern of the IEEE 754 binary64 product of the numbers with
/// bit patterns `a` and `b`, rounded to nearest (ties to even).
pub uninterp spec fn mul_bits(a: u64, b: u64) -> u64;

/// The bit pattern of the IEEE 754 binary64 quotient of the numbers with
/// bit patterns `a` and `b`, rounded to nearest (ties to even).
pub uninterp spec fn div_bits(a: u64, b: u64) -> u64;

/// The bit pattern of the IEEE 754 binary64 square root of the number
/// with bit pattern `a` (NaN for negative arguments other than negative
/// zero).
pub uninterp spec fn sqrt_bits(a: u64) -> u64;

/// Whether the number with bit pattern `a` is less than or equal to the
/// number with bit pattern `b` under the IEEE 754 ordered comparison
/// (false whenever either operand is NaN).
pub uninterp spec fn le_bits(a: u64, b: u64) -> bool;

/// The bit pattern of the IEEE 754 binary64 number nearest to the
/// integer `x` (ties to even).
pub uninterp spec fn double_of_usize(x: usize) -> u64;

/// Whether the number with bit pattern `x` fails the ordered comparison
/// with itself — true exactly of NaN.
pub open spec fn nan_bits(x: u64) -> bool {
    !le_bits(x, x)
}

/// Whether the number with bit pattern `x` lies between the most
/// negative and the largest finite number — true exactly of the finite
/// numbers, false of NaN and the infinities.
pub open spec fn finite_bits(x: u64) -> bool {
    le_bits(NEG_MAX_BITS, x) && le_bits(x, MAX_BITS)
}

/// Relies on `softfp`'s binary64 addition (`Fp::add`), with rounding
/// registered as ties-to-even: exactly rounded, so fully determined by
/// the operand bit patterns. The sum of two non-negative numbers is
/// non-negative and never NaN (the operands cannot be infinities of
/// opposite sign).
#[verifier::external_body]
pub(crate) fn ieee_add(a: u64, b: u64) -> (r: u64)
    ensures
        r == add_bits(a, b),
        (a == POS_ZERO_BITS || le_bits(POS_ZERO_BITS, a)) && le_bits(POS_ZERO_BITS, b)
            ==> le_bits(POS_ZERO_BITS, r),
{
    softfp::register_get_rounding_mode(ties_to_even);
    softfp::register_set_exception_flags(ignore_flags);
    (softfp::F64::new(a) + softfp::F64::new(b)).0
}

/// Relies on `softfp`'s binary64 subtraction (`Fp::sub`), with rounding
/// registered as ties-to-even: exactly rounded, so fully determined by
/// the operand bit patterns.
#[verifier::external_body]
pub(crate) fn ieee_sub(a: u64, b: u64) -> (r: u64)
    ensures
        r == sub_bits(a, b),
{
    softfp::register_get_rounding_mode(ties_to_even);
    softfp::register_set_exception_flags(ignore_flags);
    (softfp::F64::new(a) - softfp::F64::new(b)).0
}

/// Relies on `softfp`'s binary64 multiplication (`Fp::mul`), with
/// rounding registered as ties-to-even: exactly rounded, so fully
/// determined by the operand bit patterns. The square of a non-NaN
/// number is non-negative; and scaling by one hundred keeps a NaN NaN
/// and a non-finite value non-finite.
#[verifier::external_body]
pub(crate) fn ieee_mul(a: u64, b: u64) -> (r: u64)
    ensures
        r == mul_bits(a, b),
        a == b && !nan_bits(a) ==> le_bits(POS_ZERO_BITS, r),
        nan_bits(a) && b == HUNDRED_BITS ==> nan_bits(r),
        !finite_bits(a) && b == HUNDRED_BITS ==> !finite_bits(r),
{
    softfp::register_get_rounding_mode(ties_to_even);
    softfp::register_set_exception_flags(ignore_flags);
    (softfp::F64::new(a) * softfp::F64::new(b)).0
}

/// Relies on `softfp`'s binary64 division (`Fp::div`), with rounding
/// registered as ties-to-even: exactly rounded, so fully determined by
/// the operand bit patterns. A non-negative number over a finite number
/// of at least one stays non-negative; anything but a zero over a zero
/// is an infinity or NaN; and a zero over a zero is NaN.
#[verifier::external_body]
pub(crate) fn ieee_div(a: u64, b: u64) -> (r: u64)
    ensures
        r == div_bits(a, b),
        (a == POS_ZERO_BITS || le_bits(POS_ZERO_BITS, a)) && le_bits(ONE_BITS, b) && le_bits(
            b,
            MAX_BITS,
        ) ==> le_bits(POS_ZERO_BITS, r),
        b == POS_ZERO_BITS && a != POS_ZERO_BITS && a != NEG_ZERO_BITS ==> !finite_bits(r),
        a == POS_ZERO_BITS && b == POS_ZERO_BITS ==> nan_bits(r),
{
    softfp::register_get_rounding_mode(ties_to_even);
    softfp::register_set_exception_flags(ignore_flags);
    (softfp::F64::new(a) / softfp::F64::new(b)).0
}

/// Relies on `softfp::Fp::square_root`, with rounding registered as
/// ties-to-even: correctly rounded, so fully determined by the operand
/// bit pattern. The root of a non-negative number is non-negative.
#[verifier::external_body]
pub(crate) fn ieee_sqrt(a: u64) -> (r: u64)
    ensures
        r == sqrt_bits(a),
        a == POS_ZERO_BITS || le_bits(POS_ZERO_BITS, a) ==> le_bits(POS_ZERO_BITS, r),
{
    softfp::register_get_rounding_mode(ties_to_even);
    softfp::register_set_exception_flags(ignore_flags);
    softfp::F64::new(a).square_root().0
}

/// Relies on `softfp`'s binary64 ordered comparison (`PartialOrd` on
/// `Fp`): fully determined by the operand bit patterns; false whenever
/// either operand is NaN.
#[verifier::external_body]
pub(crate) fn ieee_le(a: u64, b: u64) -> (r: bool)
    ensures
        r == le_bits(a, b),
{
    softfp::register_get_rounding_mode(ties_to_even);
    softfp::register_set_exception_flags(ignore_flags);
    softfp::F64::new(a) <= softfp::F64::new(b)
}

/// Relies on `softfp::Fp::convert_from_uint`, with rounding registered
/// as ties-to-even: rounds to the nearest representable number, so fully
/// determined by the argument. Every unsigned integer converts to a
/// non-negative finite number, and one that is at least one converts to
/// a number at least one.
#[verifier::external_body]
pub(crate) fn ieee_from_usize(x: usize) -> (r: u64)
    ensures
        r == double_of_usize(x),
        le_bits(POS_ZERO_BITS, r),
        le_bits(r, MAX_BITS),
        1 <= x ==> le_bits(ONE_BITS, r),
{
    softfp::register_get_rounding_mode(ties_to_even);
    softfp::register_set_exception_flags(ignore_flags);
    softfp::F64::convert_from_uint(x as u64).0
}

} // verus!
