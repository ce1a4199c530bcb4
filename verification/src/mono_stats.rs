//! Statistics of a frame of monochrome samples.

use crate::framedata::FrameData;
use crate::math::seq_sum;
use crate::pixel::MonoPixel;
use crate::stats::{is_maximum, is_minimum, min_max, squares, sum_and_squares, values, Ratio};
use vstd::prelude::*;

verus! {

impl<T: MonoPixel> FrameData<T> {
    /// The sum of the samples.
    pub open spec fn total(&self) -> int {
        seq_sum(values(self.data@))
    }

    /// The sum of the squares of the samples.
    pub open spec fn total_squares(&self) -> int {
        seq_sum(squares(values(self.data@)))
    }

    /// The sum of the samples.
    pub fn sum(&self) -> (sum: i64)
        requires
            self.total() <= i64::MAX,
        ensures
            sum == self.total(),
    {
        let (sum, _) = sum_and_squares(self.data.as_slice());
        sum as i64
    }

    /// The sum of the squares of the samples.
    pub fn sumsq(&self) -> (sum: i64)
        requires
            self.total_squares() <= i64::MAX,
        ensures
            sum == self.total_squares(),
    {
        let (_, squares) = sum_and_squares(self.data.as_slice());
        squares as i64
    }

    /// The largest sample, or 0 where the frame has no pixels.
    pub fn maxval(&self) -> (max: T)
        ensures
            is_maximum(values(self.data@), max.value(), 0),
    {
        min_max(self.data.as_slice()).1
    }

    /// The smallest sample, or the largest value of the sample type where the
    /// frame has no pixels.
    pub fn minval(&self) -> (min: T)
        ensures
            is_minimum(values(self.data@), min.value(), T::max_int()),
    {
        min_max(self.data.as_slice()).0
    }

    /// The smallest and the largest sample.
    pub fn minmax(&self) -> (extremes: (T, T))
        ensures
            is_minimum(values(self.data@), extremes.0.value(), T::max_int()),
            is_maximum(values(self.data@), extremes.1.value(), 0),
    {
        min_max(self.data.as_slice())
    }

    /// The mean of the samples as an exact fraction: their sum over their
    /// number. A frame without pixels has no mean.
    pub fn mean(&self) -> (mean: Option<Ratio>)
        ensures
            mean is Some <==> self.data@.len() > 0,
            mean is Some ==> mean->Some_0.num == self.total() && mean->Some_0.den
                == self.data@.len(),
    {
        if self.data.len() == 0 {
            return None;
        }
        let (sum, _) = sum_and_squares(self.data.as_slice());
        Some(Ratio { num: sum, den: self.data.len() as u128 })
    }

    /// The mean and the variance of the samples as exact fractions.
    ///
    /// With `n` samples, the mean is `sum(x) / n` and the variance is the
    /// mean of the squares less the square of the mean,
    /// `(n * sum(x^2) - sum(x)^2) / n^2`. There is no result for a frame
    /// without pixels, nor where `n * sum(x^2)` does not fit in 128 bits.
    pub fn mean_and_var(&self) -> (stats: Option<(Ratio, Ratio)>)
        ensures
            stats is Some <==> self.data@.len() > 0 && self.data@.len() * self.total_squares()
                <= u128::MAX,
            stats is Some ==> {
                let (mean, var) = stats->Some_0;
                &&& mean.num == self.total()
                &&& mean.den == self.data@.len()
                &&& var.num == self.data@.len() * self.total_squares() - self.total()
                    * self.total()
                &&& var.den == self.data@.len() * self.data@.len()
            },
    {
        if self.data.len() == 0 {
            return None;
        }
        let (sum, sum_sq) = sum_and_squares(self.data.as_slice());
        let n: u128 = self.data.len() as u128;
        proof {
            crate::stats::lemma_square_of_sum(values(self.data@));
            assert(n * n <= 0xffff_ffff_ffff_ffff * 0xffff_ffff_ffff_ffff) by (nonlinear_arith)
                requires
                    0 <= n <= 0xffff_ffff_ffff_ffff,
            ;
        }
        match n.checked_mul(sum_sq) {
            Some(scaled) => Some(
                (Ratio { num: sum, den: n }, Ratio { num: scaled - sum * sum, den: n * n }),
            ),
            None => None,
        }
    }
}

} // verus!
