//! Frame statistics: extremes, a histogram on a power-of-two grid, mean and
//! variance.

use crate::math::{ceil_pow2, lemma_ceil_pow2_bounds, lemma_seq_sum_update, lemma_seq_sum_zeros, next_pow2, seq_sum};
use crate::pixel::MonoPixel;
use vstd::prelude::*;

verus! {

/// The number of bins that divide the grid; one more bin takes what lies at
/// or beyond the grid's end.
pub const NBINS: usize = 256;

/// A fraction of two integers with a positive denominator.
#[derive(Clone, Copy, Debug, PartialEq, Eq, Structural)]
pub struct Ratio {
    /// The numerator.
    pub num: u128,
    /// The denominator.
    pub den: u128,
}

/// The integers that a sequence of samples stands for.
pub open spec fn values<T: MonoPixel>(samples: Seq<T>) -> Seq<int> {
    Seq::new(samples.len(), |i: int| samples[i].value())
}

/// The squares of a sequence of integers.
pub open spec fn squares(v: Seq<int>) -> Seq<int> {
    Seq::new(v.len(), |i: int| v[i] * v[i])
}

/// `m` is the least element of `v`, or `when_empty` where `v` has none.
pub open spec fn is_minimum(v: Seq<int>, m: int, when_empty: int) -> bool {
    &&& v.len() == 0 ==> m == when_empty
    &&& v.len() > 0 ==> exists|i: int| 0 <= i < v.len() && v[i] == m
    &&& forall|i: int| 0 <= i < v.len() ==> m <= v[i]
}

/// `m` is the greatest element of `v`, or `when_empty` where `v` has none.
pub open spec fn is_maximum(v: Seq<int>, m: int, when_empty: int) -> bool {
    &&& v.len() == 0 ==> m == when_empty
    &&& v.len() > 0 ==> exists|i: int| 0 <= i < v.len() && v[i] == m
    &&& forall|i: int| 0 <= i < v.len() ==> v[i] <= m
}

/// The least element of `v`, or `when_empty` where `v` has none.
pub open spec fn minimum(v: Seq<int>, when_empty: int) -> int {
    choose|m: int| is_minimum(v, m, when_empty)
}

/// The greatest element of `v`, or `when_empty` where `v` has none.
pub open spec fn maximum(v: Seq<int>, when_empty: int) -> int {
    choose|m: int| is_maximum(v, m, when_empty)
}

/// A sequence has one least element only.
pub proof fn lemma_minimum_unique(v: Seq<int>, m: int, when_empty: int)
    requires
        is_minimum(v, m, when_empty),
    ensures
        m == minimum(v, when_empty),
{
    let other = minimum(v, when_empty);
    assert(is_minimum(v, other, when_empty));
    if v.len() > 0 {
        let i = choose|i: int| 0 <= i < v.len() && v[i] == m;
        let j = choose|j: int| 0 <= j < v.len() && v[j] == other;
        assert(m <= v[j] && other <= v[i]);
    }
}

/// A sequence has one greatest element only.
pub proof fn lemma_maximum_unique(v: Seq<int>, m: int, when_empty: int)
    requires
        is_maximum(v, m, when_empty),
    ensures
        m == maximum(v, when_empty),
{
    let other = maximum(v, when_empty);
    assert(is_maximum(v, other, when_empty));
    if v.len() > 0 {
        let i = choose|i: int| 0 <= i < v.len() && v[i] == m;
        let j = choose|j: int| 0 <= j < v.len() && v[j] == other;
        assert(v[j] <= m && v[i] <= other);
    }
}

/// The width of a histogram bin for samples that reach up to `max`: the grid
/// runs from 0 to the least power of two that is not below `max`, in 256 bins
/// of a whole width that is at least 1.
pub open spec fn bin_width(max: int) -> int {
    let span = ceil_pow2(max as nat) as int;
    if span <= NBINS {
        1
    } else {
        (span + NBINS - 1) / (NBINS as int)
    }
}

/// The bin that a sample falls into; the last bin takes every sample at or
/// beyond the grid's end.
pub open spec fn bin_of(value: int, width: int) -> int {
    if value / width >= NBINS {
        NBINS as int
    } else {
        value / width
    }
}

/// How many of the samples fall into a bin.
pub open spec fn count_in_bin(v: Seq<int>, width: int, bin: int) -> int
    decreases v.len(),
{
    if v.len() == 0 {
        0
    } else {
        count_in_bin(v.drop_last(), width, bin) + if bin_of(v.last(), width) == bin {
            1int
        } else {
            0int
        }
    }
}

/// The number of samples in each of the 257 bins.
pub open spec fn bin_counts(v: Seq<int>, width: int) -> Seq<int> {
    Seq::new((NBINS + 1) as nat, |b: int| count_in_bin(v, width, b))
}

/// `bins` and `counts` are the histogram of the samples `v`: 257 bins of
/// the width that the largest sample asks for, the first starting at 0, each
/// with the number of samples that fall into it.
pub open spec fn is_histogram(v: Seq<int>, bins: Seq<i32>, counts: Seq<i32>) -> bool {
    let width = bin_width(maximum(v, 0));
    &&& bins.len() == NBINS + 1
    &&& forall|i: int| 0 <= i <= NBINS ==> bins[i] == i * width
    &&& counts_of(counts) == bin_counts(v, width)
}

/// The number of samples that mean and variance divide by: the number of
/// samples, and 2 where there are fewer.
pub open spec fn floored_count(len: nat) -> int {
    if len < 2 {
        2
    } else {
        len as int
    }
}

/// The numerator of the sample variance over the denominator
/// `variance_denominator`: `n * sum(x^2) - sum(x)^2`.
pub open spec fn variance_numerator(v: Seq<int>) -> int {
    floored_count(v.len()) * seq_sum(squares(v)) - seq_sum(v) * seq_sum(v)
}

/// The denominator of the sample variance: `n * (n - 1)`.
pub open spec fn variance_denominator(v: Seq<int>) -> int {
    floored_count(v.len()) * (floored_count(v.len()) - 1)
}

/// The counts of a histogram as integers.
pub open spec fn counts_of(counts: Seq<i32>) -> Seq<int> {
    Seq::new(counts.len(), |i: int| counts[i] as int)
}

/// A sample that is not negative falls into one of the 257 bins.
pub proof fn lemma_bin_in_range(value: int, width: int)
    requires
        0 <= value,
        1 <= width,
    ensures
        0 <= bin_of(value, width) <= NBINS,
{
    assert(0 <= value / width) by (nonlinear_arith)
        requires
            0 <= value,
            1 <= width,
    ;
}

/// The counts of all bins add up to the number of samples: every sample is
/// counted in exactly one bin, those at the ends of the grid too.
pub proof fn lemma_bins_count_every_sample(v: Seq<int>, width: int)
    requires
        1 <= width,
        forall|i: int| 0 <= i < v.len() ==> 0 <= v[i],
    ensures
        seq_sum(bin_counts(v, width)) == v.len(),
    decreases v.len(),
{
    if v.len() == 0 {
        lemma_seq_sum_zeros(bin_counts(v, width));
    } else {
        let rest = v.drop_last();
        lemma_bins_count_every_sample(rest, width);
        let bin = bin_of(v.last(), width);
        lemma_bin_in_range(v.last(), width);
        let before = bin_counts(rest, width);
        assert(bin_counts(v, width) =~= before.update(bin, before[bin] + 1));
        lemma_seq_sum_update(before, bin, before[bin] + 1);
    }
}

/// The counts of a histogram add up to the number of samples.
pub proof fn lemma_histogram_counts_every_sample(v: Seq<int>, bins: Seq<i32>, counts: Seq<i32>)
    requires
        is_histogram(v, bins, counts),
        forall|i: int| 0 <= i < v.len() ==> 0 <= v[i],
    ensures
        seq_sum(counts_of(counts)) == v.len(),
{
    lemma_maximum_not_negative(v);
    lemma_bin_width_positive(maximum(v, 0));
    lemma_bins_count_every_sample(v, bin_width(maximum(v, 0)));
}

/// The greatest of samples that are not negative is not negative.
pub proof fn lemma_maximum_not_negative(v: Seq<int>)
    requires
        forall|i: int| 0 <= i < v.len() ==> 0 <= v[i],
    ensures
        0 <= maximum(v, 0),
        is_maximum(v, maximum(v, 0), 0),
{
    lemma_maximum_exists(v);
    if v.len() > 0 {
        let m = maximum(v, 0);
        let i = choose|i: int| 0 <= i < v.len() && v[i] == m;
        assert(0 <= v[i]);
    }
}

/// Every sequence of samples that are not negative has a greatest element.
proof fn lemma_maximum_exists(v: Seq<int>)
    requires
        forall|i: int| 0 <= i < v.len() ==> 0 <= v[i],
    ensures
        is_maximum(v, maximum(v, 0), 0),
    decreases v.len(),
{
    if v.len() == 0 {
        assert(is_maximum(v, 0, 0));
    } else {
        let rest = v.drop_last();
        lemma_maximum_exists(rest);
        let m = maximum(rest, 0);
        let top = if rest.len() == 0 || v.last() >= m {
            v.last()
        } else {
            m
        };
        if rest.len() > 0 && v.last() < m {
            let i = choose|i: int| 0 <= i < rest.len() && rest[i] == m;
            assert(v[i] == m);
        } else {
            assert(v[v.len() - 1] == top);
        }
        assert forall|i: int| 0 <= i < v.len() implies v[i] <= top by {
            if i < rest.len() {
                assert(rest[i] == v[i]);
            }
        }
        assert(is_maximum(v, top, 0));
    }
}

/// A bin is at least 1 wide.
pub proof fn lemma_bin_width_positive(max: int)
    ensures
        1 <= bin_width(max),
{
    let span = ceil_pow2(max as nat) as int;
    if span > NBINS {
        assert((span + NBINS - 1) / (NBINS as int) >= 1);
    }
}

/// The sum of the squared distances of the elements from `x` is not
/// negative: `sum(v^2) - 2 x sum(v) + len x^2 >= 0`.
proof fn lemma_spread(v: Seq<int>, x: int)
    ensures
        seq_sum(squares(v)) - 2 * x * seq_sum(v) + v.len() * x * x >= 0,
    decreases v.len(),
{
    if v.len() > 0 {
        let w = v.drop_last();
        let a = v.last();
        lemma_spread(w, x);
        assert(squares(v).drop_last() =~= squares(w));
        let q = seq_sum(squares(w));
        let s = seq_sum(w);
        let n = w.len() as int;
        assert(seq_sum(squares(v)) == q + a * a);
        assert(seq_sum(v) == s + a);
        assert((q + a * a) - 2 * x * (s + a) + (n + 1) * x * x == (q - 2 * x * s + n * x * x) + (a
            - x) * (a - x)) by (nonlinear_arith);
        assert((a - x) * (a - x) >= 0) by (nonlinear_arith);
    }
}

/// The square of a sum is at most the number of its terms times the sum of
/// their squares.
pub proof fn lemma_square_of_sum(v: Seq<int>)
    ensures
        seq_sum(v) * seq_sum(v) <= v.len() * seq_sum(squares(v)),
        0 <= seq_sum(squares(v)),
    decreases v.len(),
{
    if v.len() > 0 {
        let w = v.drop_last();
        let a = v.last();
        lemma_square_of_sum(w);
        lemma_spread(w, a);
        assert(squares(v).drop_last() =~= squares(w));
        let q = seq_sum(squares(w));
        let s = seq_sum(w);
        let n = w.len() as int;
        assert(seq_sum(squares(v)) == q + a * a);
        assert(seq_sum(v) == s + a);
        assert((n + 1) * (q + a * a) - (s + a) * (s + a) == (n * q - s * s) + (q - 2 * a * s + n
            * a * a)) by (nonlinear_arith);
        assert(a * a >= 0) by (nonlinear_arith);
    }
}

/// The variance is never negative: its numerator is not, and its denominator
/// is positive.
pub proof fn lemma_variance_not_negative(v: Seq<int>)
    ensures
        variance_numerator(v) >= 0,
        variance_denominator(v) >= 2,
{
    lemma_square_of_sum(v);
    let n = floored_count(v.len());
    let q = seq_sum(squares(v));
    assert(v.len() * q <= n * q) by (nonlinear_arith)
        requires
            v.len() <= n,
            0 <= q,
    ;
    assert(n * (n - 1) >= 2) by (nonlinear_arith)
        requires
            n >= 2,
    ;
}

/// Samples that are all equal, two or more of them, have variance 0.
pub proof fn lemma_variance_of_constant(v: Seq<int>, c: int)
    requires
        v.len() >= 2,
        forall|i: int| 0 <= i < v.len() ==> v[i] == c,
    ensures
        seq_sum(v) == v.len() * c,
        variance_numerator(v) == 0,
    decreases v.len(),
{
    lemma_constant_sums(v, c);
    let n = v.len() as int;
    assert(n * (n * (c * c)) - (n * c) * (n * c) == 0) by (nonlinear_arith);
}

/// The sum and the sum of squares of a constant sequence.
proof fn lemma_constant_sums(v: Seq<int>, c: int)
    requires
        forall|i: int| 0 <= i < v.len() ==> v[i] == c,
    ensures
        seq_sum(v) == v.len() * c,
        seq_sum(squares(v)) == v.len() * (c * c),
    decreases v.len(),
{
    if v.len() > 0 {
        let w = v.drop_last();
        lemma_constant_sums(w, c);
        assert(squares(v).drop_last() =~= squares(w));
        assert(squares(v).last() == c * c);
        let n = w.len() as int;
        assert((n + 1) * c == n * c + c) by (nonlinear_arith);
        assert((n + 1) * (c * c) == n * (c * c) + c * c) by (nonlinear_arith);
    } else {
        assert(squares(v).len() == 0);
        assert(0 * c == 0 && 0 * (c * c) == 0) by (nonlinear_arith);
    }
}

/// The smallest and the largest of the samples, by a linear scan. Without
/// samples the smallest is the largest value of the type and the largest is 0.
pub fn min_max<T: MonoPixel>(pixels: &[T]) -> (extremes: (T, T))
    ensures
        is_minimum(values(pixels@), extremes.0.value(), T::max_int()),
        is_maximum(values(pixels@), extremes.1.value(), 0),
        extremes.0.value() == minimum(values(pixels@), T::max_int()),
        extremes.1.value() == maximum(values(pixels@), 0),
{
    let mut min: T = T::max_value();
    let mut max: T = T::min_value();
    let ghost v = values(pixels@);
    let mut i: usize = 0;
    while i < pixels.len()
        invariant
            i <= pixels@.len(),
            v == values(pixels@),
            is_minimum(v.take(i as int), min.value(), T::max_int()),
            is_maximum(v.take(i as int), max.value(), 0),
        decreases pixels@.len() - i,
    {
        let x: T = pixels[i];
        let ghost before = v.take(i as int);
        let ghost after = v.take(i + 1);
        proof {
            x.lemma_range();
            assert(after[i as int] == x.value());
            assert forall|k: int| 0 <= k < i implies after[k] == before[k] by {}
            if i > 0 {
                let j = choose|j: int| 0 <= j < before.len() && before[j] == min.value();
                assert(after[j] == min.value());
                let j2 = choose|j: int| 0 <= j < before.len() && before[j] == max.value();
                assert(after[j2] == max.value());
            }
        }
        if x.to_i64() < min.to_i64() {
            min = x;
        }
        if x.to_i64() > max.to_i64() {
            max = x;
        }
        i = i + 1;
    }
    proof {
        assert(v.take(pixels@.len() as int) =~= v);
        lemma_minimum_unique(v, min.value(), T::max_int());
        lemma_maximum_unique(v, max.value(), 0);
    }
    (min, max)
}

/// The histogram of the samples: the smallest sample, the largest sample, the
/// lower edges of the 257 bins and the number of samples in each bin.
///
/// The grid starts at 0 and its bins are `bin_width` of the largest sample
/// wide; the last bin counts what lies at or beyond the end of the grid. Every
/// sample is counted in exactly one bin.
pub fn compute_histogram<T: MonoPixel>(pixels: &[T]) -> (hist: (i32, i32, Vec<i32>, Vec<i32>))
    requires
        pixels@.len() <= i32::MAX,
    ensures
        hist.0 == minimum(values(pixels@), T::max_int()),
        hist.1 == maximum(values(pixels@), 0),
        is_histogram(values(pixels@), hist.2@, hist.3@),
        seq_sum(counts_of(hist.3@)) == pixels@.len(),
{
    let (min, max) = min_max(pixels);
    proof {
        min.lemma_range();
        max.lemma_range();
        lemma_ceil_pow2_bounds(max.value() as nat);
    }
    let span: u64 = next_pow2(max.to_i64() as u32);
    let width: i32 = if span <= NBINS as u64 {
        1
    } else {
        ((span + NBINS as u64 - 1) / NBINS as u64) as i32
    };
    assert(width == bin_width(max.value()));
    assert(1 <= width <= 512);
    let mut bins: Vec<i32> = Vec::new();
    let mut i: usize = 0;
    while i <= NBINS
        invariant
            i <= NBINS + 1,
            1 <= width <= 512,
            bins@.len() == i,
            forall|k: int| 0 <= k < i ==> bins@[k] == k * width,
        decreases NBINS + 1 - i,
    {
        assert(i * width <= 256 * 512) by (nonlinear_arith)
            requires
                i <= 256,
                0 <= width <= 512,
        ;
        bins.push(i as i32 * width);
        i = i + 1;
    }
    let mut counts: Vec<i32> = Vec::new();
    let mut b: usize = 0;
    while b <= NBINS
        invariant
            b <= NBINS + 1,
            counts@.len() == b,
            forall|k: int| 0 <= k < b ==> counts@[k] == 0,
        decreases NBINS + 1 - b,
    {
        counts.push(0);
        b = b + 1;
    }
    let ghost v = values(pixels@);
    proof {
        lemma_seq_sum_zeros(counts_of(counts@));
        assert(v.take(0).len() == 0);
    }
    let mut n: usize = 0;
    while n < pixels.len()
        invariant
            n <= pixels@.len() <= i32::MAX,
            v == values(pixels@),
            1 <= width <= 512,
            counts@.len() == NBINS + 1,
            forall|k: int|
                0 <= k <= NBINS ==> counts@[k] == count_in_bin(v.take(n as int), width as int, k),
            forall|k: int| 0 <= k <= NBINS ==> 0 <= #[trigger] counts@[k] && counts@[k] <= n,
            seq_sum(counts_of(counts@)) == n,
        decreases pixels@.len() - n,
    {
        let x: T = pixels[n];
        proof {
            x.lemma_range();
        }
        let quotient: i64 = x.to_i64() / width as i64;
        let bin: usize = if quotient >= NBINS as i64 {
            NBINS
        } else {
            quotient as usize
        };
        let ghost before = counts@;
        let count: i32 = counts[bin];
        counts.set(bin, count + 1);
        proof {
            let after = v.take(n + 1);
            assert(after.drop_last() =~= v.take(n as int));
            assert(after.last() == x.value());
            assert(bin == bin_of(x.value(), width as int));
            assert(counts_of(counts@) =~= counts_of(before).update(bin as int, count + 1));
            lemma_seq_sum_update(counts_of(before), bin as int, count + 1);
        }
        n = n + 1;
    }
    proof {
        assert(v.take(pixels@.len() as int) =~= v);
        assert(counts_of(counts@) =~= bin_counts(v, width as int));
    }
    (min.to_i64() as i32, max.to_i64() as i32, bins, counts)
}

/// The sum of the samples and the sum of their squares, in one pass.
pub fn sum_and_squares<T: MonoPixel>(pixels: &[T]) -> (sums: (u128, u128))
    ensures
        sums.0 == seq_sum(values(pixels@)),
        sums.1 == seq_sum(squares(values(pixels@))),
        sums.0 <= 0xffff * pixels@.len(),
        sums.1 <= 0xfffe_0001 * pixels@.len(),
{
    let ghost v = values(pixels@);
    let mut sum: u128 = 0;
    let mut sum_sq: u128 = 0;
    let mut i: usize = 0;
    proof {
        assert(squares(v.take(0)).len() == 0);
    }
    while i < pixels.len()
        invariant
            i <= pixels@.len(),
            v == values(pixels@),
            sum == seq_sum(v.take(i as int)),
            sum_sq == seq_sum(squares(v.take(i as int))),
            sum <= 0xffff * i,
            sum_sq <= 0xfffe_0001 * i,
        decreases pixels@.len() - i,
    {
        let x: T = pixels[i];
        proof {
            x.lemma_range();
            let after = v.take(i + 1);
            assert(after.drop_last() =~= v.take(i as int));
            assert(after.last() == x.value());
            assert(squares(after).drop_last() =~= squares(v.take(i as int)));
            assert(squares(after).last() == x.value() * x.value());
            assert(x.value() * x.value() <= 0xfffe_0001) by (nonlinear_arith)
                requires
                    0 <= x.value() <= 0xffff,
            ;
        }
        let wide: u128 = x.to_i64() as u128;
        sum = sum + wide;
        sum_sq = sum_sq + wide * wide;
        i = i + 1;
    }
    proof {
        assert(v.take(pixels@.len() as int) =~= v);
    }
    (sum, sum_sq)
}

/// The mean and the sample variance of the samples, each as an exact
/// fraction.
///
/// Both divide by the number of samples `n`, taken as 2 where there are fewer
/// samples. The mean is `sum(x) / n`; the variance is
/// `(n * sum(x^2) - sum(x)^2) / (n * (n - 1))`. The variance is `None` where
/// `n * sum(x^2)` does not fit in 128 bits.
pub fn compute_mean_and_var<T: MonoPixel>(pixels: &[T]) -> (stats: (Ratio, Option<Ratio>))
    ensures
        stats.0.num == seq_sum(values(pixels@)),
        stats.0.den == floored_count(pixels@.len()),
        stats.1 is Some <==> floored_count(pixels@.len()) * seq_sum(squares(values(pixels@)))
            <= u128::MAX,
        stats.1 is Some ==> stats.1->Some_0.num == variance_numerator(values(pixels@))
            && stats.1->Some_0.den == variance_denominator(values(pixels@)),
{
    let (sum, sum_sq) = sum_and_squares(pixels);
    proof {
        lemma_variance_not_negative(values(pixels@));
    }
    let n: u128 = if pixels.len() < 2 {
        2
    } else {
        pixels.len() as u128
    };
    let mean = Ratio { num: sum, den: n };
    let variance = match n.checked_mul(sum_sq) {
        Some(scaled) => {
            assert(n * (n - 1) <= 0xffff_ffff_ffff_ffff * 0xffff_ffff_ffff_ffff) by (nonlinear_arith)
                requires
                    2 <= n <= 0xffff_ffff_ffff_ffff,
            ;
            Some(Ratio { num: scaled - sum * sum, den: n * (n - 1) })
        },
        None => None,
    };
    (mean, variance)
}

/// The variance exists for every buffer of up to 2^48 samples.
pub proof fn lemma_variance_exists<T: MonoPixel>(samples: Seq<T>)
    requires
        samples.len() <= 0x1_0000_0000_0000,
    ensures
        floored_count(samples.len()) * seq_sum(squares(values(samples))) <= u128::MAX,
{
    lemma_sums_bounded(samples);
    let n = floored_count(samples.len());
    let q = seq_sum(squares(values(samples)));
    assert(n * q <= 0x1_0000_0000_0000 * 0xfffe_0001_0000_0000_0000) by (nonlinear_arith)
        requires
            0 <= n <= 0x1_0000_0000_0000,
            0 <= q <= 0xfffe_0001_0000_0000_0000,
    ;
}

/// The sum of 16-bit samples is at most 65535 times their number, and the sum
/// of their squares at most 65535 squared times their number.
pub proof fn lemma_sums_bounded<T: MonoPixel>(samples: Seq<T>)
    ensures
        0 <= seq_sum(values(samples)) <= 0xffff * samples.len(),
        0 <= seq_sum(squares(values(samples))) <= 0xfffe_0001 * samples.len(),
    decreases samples.len(),
{
    let v = values(samples);
    if samples.len() > 0 {
        lemma_sums_bounded(samples.drop_last());
        assert(values(samples.drop_last()) =~= v.drop_last());
        assert(squares(v).drop_last() =~= squares(v.drop_last()));
        let x = samples.last();
        x.lemma_range();
        assert(v.last() == x.value());
        assert(squares(v).last() == x.value() * x.value());
        assert(0 <= x.value() * x.value() <= 0xfffe_0001) by (nonlinear_arith)
            requires
                0 <= x.value() <= 0xffff,
        ;
    } else {
        assert(squares(v).len() == 0);
    }
}

/// The ranges of the two axes of a histogram plot.
#[derive(Clone, Copy, Debug, PartialEq, Eq, Structural)]
pub struct PlotRanges {
    /// The lower edge of the first bin.
    pub x_min: i32,
    /// The lower edge of the last bin.
    pub x_max: i32,
    /// The lower end of the count axis: 0.
    pub y_min: i64,
    /// The upper end of the count axis: the least power of two that is not
    /// below the largest count.
    pub y_max: i64,
}

/// The ranges of the axes of the plot of a histogram, or `None` for a
/// histogram without bins.
pub fn plot_ranges(bins: &Vec<i32>, counts: &Vec<i32>) -> (ranges: Option<PlotRanges>)
    requires
        forall|i: int| 0 <= i < counts@.len() ==> counts@[i] >= 0,
    ensures
        ranges is Some <==> bins@.len() > 0 && counts@.len() > 0,
        ranges matches Some(r) ==> r.x_min == bins@.first() && r.x_max == bins@.last() && r.y_min
            == 0 && r.y_max == ceil_pow2(maximum(counts_of(counts@), 0) as nat),
{
    if bins.len() == 0 || counts.len() == 0 {
        return None;
    }
    let ghost v = counts_of(counts@);
    let mut top: i32 = 0;
    let mut i: usize = 0;
    while i < counts.len()
        invariant
            i <= counts@.len(),
            v == counts_of(counts@),
            forall|k: int| 0 <= k < counts@.len() ==> counts@[k] >= 0,
            0 <= top,
            is_maximum(v.take(i as int), top as int, 0),
        decreases counts@.len() - i,
    {
        let ghost before = v.take(i as int);
        let ghost after = v.take(i + 1);
        proof {
            assert(after[i as int] == counts@[i as int]);
            assert forall|k: int| 0 <= k < i implies after[k] == before[k] by {}
            if i > 0 {
                let j = choose|j: int| 0 <= j < before.len() && before[j] == top;
                assert(after[j] == top);
            }
        }
        if counts[i] > top || i == 0 {
            top = counts[i];
        }
        i = i + 1;
    }
    proof {
        assert(v.take(counts@.len() as int) =~= v);
        lemma_maximum_unique(v, top as int, 0);
    }
    Some(
        PlotRanges {
            x_min: bins[0],
            x_max: bins[bins.len() - 1],
            y_min: 0,
            y_max: next_pow2(top as u32) as i64,
        },
    )
}

} // verus!
