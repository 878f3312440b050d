//! Signal construction.
//!
//! A signal of `sample_count` points holds `sample_count + 1` samples:
//! generation runs over the inclusive index range from `0` to
//! `sample_count`.
//!
//! The sine path is split around the one step no exact contract can
//! cover. [`sine_arguments`] builds the angles `period * x` for each
//! index `x`, exactly; the caller evaluates the sine of each angle with
//! whatever implementation it has (its precision is platform-dependent,
//! so the library leaves the call to the shell); and [`scale_samples`]
//! multiplies each resulting sample by the amplitude, exactly.
//!
//! The uniform-random path draws its samples outside the library too (a
//! random result admits no contract, and the draw happens in the shell);
//! [`validate_random_signal`] then decides, exactly, whether what came
//! back is a well-formed signal: the right length, every sample inside
//! the closed interval from zero to ten.

use crate::ieee::{
    double_of_usize, ieee_from_usize, ieee_le, ieee_mul, le_bits, mul_bits, POS_ZERO_BITS,
    TEN_BITS,
};
use vstd::prelude::*;

verus! {

/// Whether the sample lies in the closed interval from zero to ten —
/// the range of the uniform generator. False for NaN samples.
pub open spec fn in_uniform_range(x: u64) -> bool {
    le_bits(POS_ZERO_BITS, x) && le_bits(x, TEN_BITS)
}

/// The angles a sine signal of `sample_count` points is sampled at:
/// `period * x` for each index `x` from `0` to `sample_count` inclusive.
pub fn sine_arguments(sample_count: usize, period: u64) -> (r: Vec<u64>)
    requires
        sample_count < usize::MAX,
    ensures
        r@.len() == sample_count + 1,
        forall|i: int|
            0 <= i < r@.len() ==> #[trigger] r@[i] == mul_bits(period, double_of_usize(i as usize)),
{
    let mut args: Vec<u64> = Vec::new();
    let mut x: usize = 0;
    while x <= sample_count
        invariant
            sample_count < usize::MAX,
            x <= sample_count + 1,
            args@.len() == x,
            forall|i: int|
                0 <= i < x ==> #[trigger] args@[i] == mul_bits(period, double_of_usize(i as usize)),
        decreases sample_count + 1 - x,
    {
        let angle = ieee_mul(period, ieee_from_usize(x));
        args.push(angle);
        x = x + 1;
    }
    args
}

/// Each sample multiplied by the amplitude, in place of the sample.
pub fn scale_samples(amplitude: u64, samples: &Vec<u64>) -> (r: Vec<u64>)
    ensures
        r@.len() == samples@.len(),
        forall|i: int|
            0 <= i < r@.len() ==> #[trigger] r@[i] == mul_bits(amplitude, samples@[i]),
{
    let mut scaled: Vec<u64> = Vec::new();
    let mut k: usize = 0;
    while k < samples.len()
        invariant
            k <= samples@.len(),
            scaled@.len() == k,
            forall|i: int|
                0 <= i < k ==> #[trigger] scaled@[i] == mul_bits(amplitude, samples@[i]),
        decreases samples@.len() - k,
    {
        scaled.push(ieee_mul(amplitude, samples[k]));
        k = k + 1;
    }
    scaled
}

/// Whether `samples` is a well-formed uniform-random signal of
/// `sample_count` points: `sample_count + 1` samples, every one inside
/// the closed interval from zero to ten.
pub fn validate_random_signal(samples: &Vec<u64>, sample_count: usize) -> (r: bool)
    requires
        sample_count < usize::MAX,
    ensures
        r == (samples@.len() == sample_count + 1 && forall|i: int|
            0 <= i < samples@.len() ==> #[trigger] in_uniform_range(samples@[i])),
{
    if samples.len() != sample_count + 1 {
        return false;
    }
    let mut k: usize = 0;
    while k < samples.len()
        invariant
            k <= samples@.len(),
            forall|i: int| 0 <= i < k ==> #[trigger] in_uniform_range(samples@[i]),
        decreases samples@.len() - k,
    {
        let sample = samples[k];
        if !(ieee_le(POS_ZERO_BITS, sample) && ieee_le(sample, TEN_BITS)) {
            proof {
                assert(!in_uniform_range(samples@[k as int]));
            }
            return false;
        }
        k = k + 1;
    }
    true
}

} // verus!
