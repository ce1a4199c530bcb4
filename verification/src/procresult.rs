//! What the processing of one frame yields.

use crate::cameraframe::{CameraFrame, RawFrame};
use crate::math::seq_sum;
use crate::scale::{resolved_range, FCScaleType};
use crate::stats::{floored_count, is_histogram, maximum, minimum, squares, variance_denominator, variance_numerator, Ratio};
use vstd::prelude::*;

verus! {

/// The false-colour interval of a result that no frame stands behind.
pub const BLANK_RANGE: (i32, i32) = (0, 4096);

/// The output of the image processing chain for one frame.
#[derive(Debug)]
pub struct ProcResult {
    /// The frame as it came from the camera.
    pub rawframe: RawFrame,
    /// The histogram of the frame: the lower edges of the bins, and the
    /// number of samples in each bin. Both are empty for a colour frame.
    pub histogram: (Vec<i32>, Vec<i32>),
    /// The false-colour interval to show the frame with.
    pub fcrange: (i32, i32),
    /// The mean of the samples; absent for a colour frame.
    pub mean: Option<Ratio>,
    /// The sample variance of the samples; absent for a colour frame, and
    /// where it cannot be held in 128 bits.
    pub var: Option<Ratio>,
}

impl ProcResult {
    /// This is what processing `frame` yields where the false-colour mode is
    /// `mode` and the manual interval is `manual_range`.
    ///
    /// Of a monochrome frame the result holds the histogram, the resolved
    /// interval, the mean `sum(x) / n` and the variance
    /// `(n * sum(x^2) - sum(x)^2) / (n * (n - 1))`. Of a colour frame it
    /// holds no statistics, and the full-scale interval.
    pub open spec fn describes(
        &self,
        frame: RawFrame,
        mode: FCScaleType,
        manual_range: (i32, i32),
    ) -> bool {
        let v = frame.samples();
        &&& self.rawframe == frame
        &&& if frame.mono() {
            &&& is_histogram(v, self.histogram.0@, self.histogram.1@)
            &&& (self.fcrange.0 as int, self.fcrange.1 as int) == resolved_range(
                mode,
                manual_range,
                frame.shape().2,
                minimum(v, frame.sample_limit()) as i32,
                maximum(v, 0) as i32,
            )
            &&& self.mean matches Some(mean)
            &&& mean.num == seq_sum(v)
            &&& mean.den == floored_count(v.len())
            &&& (self.var is Some <==> floored_count(v.len()) * seq_sum(squares(v)) <= u128::MAX)
            &&& (self.var matches Some(var) ==> var.num == variance_numerator(v) && var.den
                == variance_denominator(v))
        } else {
            &&& self.histogram.0@.len() == 0
            &&& self.histogram.1@.len() == 0
            &&& (self.fcrange.0 as int, self.fcrange.1 as int) == resolved_range(
                FCScaleType::Max,
                manual_range,
                frame.shape().2,
                0,
                0,
            )
            &&& self.mean is None
            &&& self.var is None
        }
    }

    /// The result that stands in before the first frame has been processed:
    /// a frame without pixels taken at the given time, no statistics, and the
    /// interval from 0 to 4096.
    pub fn blank(center_of_integration_ms: i64) -> (result: ProcResult)
        ensures
            result.rawframe.wf(),
            result.rawframe.pixel_count() == 0,
            result.rawframe.shape() == (0u32, 0u32, crate::cameraframe::DEFAULT_BIT_DEPTH),
            result.histogram.0@.len() == 0,
            result.histogram.1@.len() == 0,
            result.fcrange == BLANK_RANGE,
            result.mean is None,
            result.var is None,
    {
        ProcResult {
            rawframe: RawFrame::Gray16(CameraFrame::empty(center_of_integration_ms)),
            histogram: (Vec::new(), Vec::new()),
            fcrange: BLANK_RANGE,
            mean: None,
            var: None,
        }
    }
}

impl Clone for ProcResult {
    /// A result with a copy of the frame and the same statistics.
    fn clone(&self) -> (copy: Self)
        ensures
            copy.rawframe.shape() == self.rawframe.shape(),
            copy.rawframe.samples() == self.rawframe.samples(),
            copy.rawframe.mono() == self.rawframe.mono(),
            copy.histogram.0@ == self.histogram.0@,
            copy.histogram.1@ == self.histogram.1@,
            copy.fcrange == self.fcrange,
            copy.mean == self.mean,
            copy.var == self.var,
    {
        ProcResult {
            rawframe: self.rawframe.clone(),
            histogram: (self.histogram.0.clone(), self.histogram.1.clone()),
            fcrange: self.fcrange,
            mean: self.mean,
            var: self.var,
        }
    }
}

} // verus!
