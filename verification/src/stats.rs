//! Descriptive statistics over a signal of binary64 samples.
//!
//! Every reduction reads only the first [`QUANTIZED_DOMAIN_MAX`] samples
//! of the signal — the quantized domain window — while normalizing by the
//! caller's full sample count. A signal shorter than the window is
//! rejected with [`StatsError::InsufficientSamples`].
//!
//! Each statistic's contract states its result exactly, as the
//! composition of IEEE 754 operations the reduction performs, in the
//! order it performs them (binary64 addition is not associative, so the
//! order is part of the statement).

use crate::ieee::{
    add_bits, div_bits, double_of_usize, finite_bits, ieee_add, ieee_div, ieee_from_usize,
    ieee_mul, ieee_sqrt, ieee_sub, le_bits, mul_bits, nan_bits, sqrt_bits, sub_bits, HUNDRED_BITS,
    NEG_ZERO_BITS, ONE_BITS, POS_ZERO_BITS,
};
use vstd::prelude::*;

verus! {

/// How many leading samples every statistic reads, whatever the true
/// signal length: the quantized domain bound.
pub const QUANTIZED_DOMAIN_MAX: usize = 11;

/// Why a statistic could not be computed.
#[derive(Clone, Copy, Debug, PartialEq, Eq, Structural)]
pub enum StatsError {
    /// The signal holds fewer samples than the quantized domain window.
    InsufficientSamples,
}

/// The running sum of the first `n` index-weighted samples, in loop
/// order: starting from positive zero, the IEEE 754 sum of the previous
/// accumulator and `k * s[k]`, for `k` from `0` up to `n - 1`.
pub open spec fn weighted_window_sum(s: Seq<u64>, n: int) -> u64
    decreases n,
{
    if n <= 0 {
        POS_ZERO_BITS
    } else {
        add_bits(
            weighted_window_sum(s, n - 1),
            mul_bits(double_of_usize((n - 1) as usize), s[n - 1]),
        )
    }
}

/// The running sum of the squares of the first `n` samples, in loop
/// order: starting from positive zero, the IEEE 754 sum of the previous
/// accumulator and `s[k] * s[k]`, for `k` from `0` up to `n - 1`.
pub open spec fn square_window_sum(s: Seq<u64>, n: int) -> u64
    decreases n,
{
    if n <= 0 {
        POS_ZERO_BITS
    } else {
        add_bits(square_window_sum(s, n - 1), mul_bits(s[n - 1], s[n - 1]))
    }
}

/// The index-weighted partial sum over the window, divided by the full
/// sample count. Not an arithmetic mean: the weights are the indices,
/// and the divisor is the true count, not the window size.
pub open spec fn mean_spec(s: Seq<u64>, sample_count: usize) -> u64 {
    div_bits(
        weighted_window_sum(s, QUANTIZED_DOMAIN_MAX as int),
        double_of_usize(sample_count),
    )
}

/// The last term the standard-deviation loop computes — the accumulator
/// is overwritten, not summed, each iteration, so only the final window
/// index contributes — divided by one less than the sample count.
pub open spec fn std_dev_spec(s: Seq<u64>, mean: u64, sample_count: usize) -> u64 {
    div_bits(
        mul_bits(
            sqrt_bits(sub_bits(double_of_usize((QUANTIZED_DOMAIN_MAX - 1) as usize), mean)),
            s[QUANTIZED_DOMAIN_MAX as int - 1],
        ),
        sub_bits(double_of_usize(sample_count), ONE_BITS),
    )
}

/// The square root of the sum of squares over the window divided by the
/// full sample count.
pub open spec fn rms_spec(s: Seq<u64>, sample_count: usize) -> u64 {
    sqrt_bits(div_bits(
        square_window_sum(s, QUANTIZED_DOMAIN_MAX as int),
        double_of_usize(sample_count),
    ))
}

/// The standard deviation divided by the square of the sample count.
pub open spec fn typical_error_spec(std_dev: u64, sample_count: usize) -> u64 {
    div_bits(std_dev, double_of_usize((sample_count * sample_count) as usize))
}

/// The standard deviation divided by the mean, times one hundred.
pub open spec fn cov_spec(mean: u64, std_dev: u64) -> u64 {
    mul_bits(div_bits(std_dev, mean), HUNDRED_BITS)
}

/// Index-weighted partial sum over the quantized domain window,
/// normalized by the full sample count.
pub fn get_mean(signal: &Vec<u64>, sample_count: usize) -> (r: Result<u64, StatsError>)
    ensures
        signal@.len() >= QUANTIZED_DOMAIN_MAX ==> (r matches Ok(m) && m == mean_spec(
            signal@,
            sample_count,
        )),
        signal@.len() < QUANTIZED_DOMAIN_MAX ==> r == Err::<u64, StatsError>(
            StatsError::InsufficientSamples,
        ),
{
    if signal.len() < QUANTIZED_DOMAIN_MAX {
        return Err(StatsError::InsufficientSamples);
    }
    let mut sum: u64 = POS_ZERO_BITS;
    let mut k: usize = 0;
    while k < QUANTIZED_DOMAIN_MAX
        invariant
            signal@.len() >= QUANTIZED_DOMAIN_MAX,
            k <= QUANTIZED_DOMAIN_MAX,
            sum == weighted_window_sum(signal@, k as int),
        decreases QUANTIZED_DOMAIN_MAX - k,
    {
        let weight = ieee_from_usize(k);
        let term = ieee_mul(weight, signal[k]);
        sum = ieee_add(sum, term);
        k = k + 1;
    }
    Ok(ieee_div(sum, ieee_from_usize(sample_count)))
}

/// Standard deviation as this library defines it: the accumulator is
/// overwritten, not summed, each iteration, so the result uses only the
/// last window index.
pub fn get_std_dev(signal: &Vec<u64>, mean: u64, sample_count: usize) -> (r: Result<
    u64,
    StatsError,
>)
    ensures
        signal@.len() >= QUANTIZED_DOMAIN_MAX ==> (r matches Ok(d) && d == std_dev_spec(
            signal@,
            mean,
            sample_count,
        )),
        signal@.len() < QUANTIZED_DOMAIN_MAX ==> r == Err::<u64, StatsError>(
            StatsError::InsufficientSamples,
        ),
{
    if signal.len() < QUANTIZED_DOMAIN_MAX {
        return Err(StatsError::InsufficientSamples);
    }
    let mut sum: u64 = POS_ZERO_BITS;
    let mut k: usize = 0;
    while k < QUANTIZED_DOMAIN_MAX
        invariant
            signal@.len() >= QUANTIZED_DOMAIN_MAX,
            k <= QUANTIZED_DOMAIN_MAX,
            k == 0 ==> sum == POS_ZERO_BITS,
            k > 0 ==> sum == mul_bits(
                sqrt_bits(sub_bits(double_of_usize((k - 1) as usize), mean)),
                signal@[k as int - 1],
            ),
        decreases QUANTIZED_DOMAIN_MAX - k,
    {
        let deviation = ieee_sub(ieee_from_usize(k), mean);
        sum = ieee_mul(ieee_sqrt(deviation), signal[k]);
        k = k + 1;
    }
    Ok(ieee_div(sum, ieee_sub(ieee_from_usize(sample_count), ONE_BITS)))
}

/// Root-mean-square over the quantized domain window, normalized by the
/// full sample count.
///
/// The last clause is the non-negativity law: a sum of squares is
/// non-negative and a square root is non-negative, so whenever the
/// window holds no NaN and the count is at least one, the root mean
/// square is non-negative.
pub fn get_rms(signal: &Vec<u64>, sample_count: usize) -> (r: Result<u64, StatsError>)
    ensures
        signal@.len() >= QUANTIZED_DOMAIN_MAX ==> (r matches Ok(v) && v == rms_spec(
            signal@,
            sample_count,
        )),
        signal@.len() < QUANTIZED_DOMAIN_MAX ==> r == Err::<u64, StatsError>(
            StatsError::InsufficientSamples,
        ),
        signal@.len() >= QUANTIZED_DOMAIN_MAX && sample_count >= 1 && (forall|i: int|
            0 <= i < QUANTIZED_DOMAIN_MAX ==> !nan_bits(#[trigger] signal@[i])) ==> (r matches Ok(v)
            && le_bits(POS_ZERO_BITS, v)),
{
    if signal.len() < QUANTIZED_DOMAIN_MAX {
        return Err(StatsError::InsufficientSamples);
    }
    let mut sum: u64 = POS_ZERO_BITS;
    let mut k: usize = 0;
    while k < QUANTIZED_DOMAIN_MAX
        invariant
            signal@.len() >= QUANTIZED_DOMAIN_MAX,
            k <= QUANTIZED_DOMAIN_MAX,
            sum == square_window_sum(signal@, k as int),
            (forall|i: int| 0 <= i < k ==> !nan_bits(#[trigger] signal@[i])) ==> (sum
                == POS_ZERO_BITS || le_bits(POS_ZERO_BITS, sum)),
        decreases QUANTIZED_DOMAIN_MAX - k,
    {
        let sample = signal[k];
        sum = ieee_add(sum, ieee_mul(sample, sample));
        k = k + 1;
    }
    Ok(ieee_sqrt(ieee_div(sum, ieee_from_usize(sample_count))))
}

/// Standard deviation divided by the square of the sample count.
pub fn get_typical_error(std_dev: u64, sample_count: usize) -> (r: Result<u64, StatsError>)
    requires
        sample_count * sample_count <= usize::MAX,
    ensures
        r matches Ok(t) && t == typical_error_spec(std_dev, sample_count),
{
    let squared: usize = sample_count * sample_count;
    Ok(ieee_div(std_dev, ieee_from_usize(squared)))
}

/// Coefficient of variation: the standard deviation over the mean, as a
/// percentage. A zero mean propagates as an infinite or NaN quotient;
/// it is not treated as an error: the second clause says the result is
/// then never finite, and the third that a zero over a zero is NaN.
pub fn get_cov(mean: u64, std_dev: u64) -> (r: Result<u64, StatsError>)
    ensures
        r matches Ok(c) && c == cov_spec(mean, std_dev),
        mean == POS_ZERO_BITS && std_dev != POS_ZERO_BITS && std_dev != NEG_ZERO_BITS ==> (
        r matches Ok(c) && !finite_bits(c)),
        mean == POS_ZERO_BITS && std_dev == POS_ZERO_BITS ==> (r matches Ok(c) && nan_bits(c)),
{
    Ok(ieee_mul(ieee_div(std_dev, mean), HUNDRED_BITS))
}

/// The mean is a pure function of the signal and the sample count:
/// identical inputs always yield the identical result.
pub proof fn lemma_mean_deterministic(s1: Seq<u64>, c1: usize, s2: Seq<u64>, c2: usize)
    requires
        s1 == s2,
        c1 == c2,
    ensures
        mean_spec(s1, c1) == mean_spec(s2, c2),
{
}

proof fn lemma_weighted_window_sum_agrees(s1: Seq<u64>, s2: Seq<u64>, n: int)
    requires
        forall|i: int| 0 <= i < n ==> s1[i] == s2[i],
    ensures
        weighted_window_sum(s1, n) == weighted_window_sum(s2, n),
    decreases n,
{
    if n > 0 {
        lemma_weighted_window_sum_agrees(s1, s2, n - 1);
    }
}

proof fn lemma_square_window_sum_agrees(s1: Seq<u64>, s2: Seq<u64>, n: int)
    requires
        forall|i: int| 0 <= i < n ==> s1[i] == s2[i],
    ensures
        square_window_sum(s1, n) == square_window_sum(s2, n),
    decreases n,
{
    if n > 0 {
        lemma_square_window_sum_agrees(s1, s2, n - 1);
    }
}

/// The statistics read nothing past the quantized domain window: two
/// signals that agree on the first [`QUANTIZED_DOMAIN_MAX`] samples get
/// the same mean, standard deviation and root-mean-square, whatever
/// stands beyond the window.
pub proof fn lemma_stats_read_window_only(
    s1: Seq<u64>,
    s2: Seq<u64>,
    mean: u64,
    sample_count: usize,
)
    requires
        forall|i: int| 0 <= i < QUANTIZED_DOMAIN_MAX ==> s1[i] == s2[i],
    ensures
        mean_spec(s1, sample_count) == mean_spec(s2, sample_count),
        std_dev_spec(s1, mean, sample_count) == std_dev_spec(s2, mean, sample_count),
        rms_spec(s1, sample_count) == rms_spec(s2, sample_count),
{
    lemma_weighted_window_sum_agrees(s1, s2, QUANTIZED_DOMAIN_MAX as int);
    lemma_square_window_sum_agrees(s1, s2, QUANTIZED_DOMAIN_MAX as int);
    assert(s1[QUANTIZED_DOMAIN_MAX as int - 1] == s2[QUANTIZED_DOMAIN_MAX as int - 1]);
}

} // verus!
