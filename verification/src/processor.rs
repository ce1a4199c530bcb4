//! The image processing chain: from a frame to its statistics and its
//! false-colour interval.

use crate::cameraframe::RawFrame;
use crate::framedata::FrameData;
use crate::math::seq_sum;
use crate::pixel::MonoPixel;
use crate::procresult::ProcResult;
use crate::scale::{resolve, resolved_range, FCScaleType, GuiParams, MAX_BIT_DEPTH};
use crate::stats::{compute_histogram, compute_mean_and_var, floored_count, is_histogram, maximum, minimum, squares, values, variance_denominator, variance_numerator, Ratio};
use vstd::prelude::*;

verus! {

/// The manual interval that is in force where no display settings were
/// given.
pub const DEFAULT_SCALE_RANGE: (i32, i32) = (0, 65535);

/// Turns frames into results, one at a time, and keeps the latest result.
pub struct ImageProcessor {
    params: Option<GuiParams>,
    lastresult: Option<ProcResult>,
}

/// The statistics of a monochrome frame.
struct MonoStats {
    histogram: (Vec<i32>, Vec<i32>),
    fcrange: (i32, i32),
    mean: Ratio,
    var: Option<Ratio>,
}

impl ImageProcessor {
    /// The display settings that were given last, if any were.
    pub closed spec fn params(&self) -> Option<GuiParams> {
        self.params
    }

    /// The result of the frame that was processed last, if any was.
    pub closed spec fn latest(&self) -> Option<ProcResult> {
        self.lastresult
    }

    /// The false-colour mode in force: that of the display settings, and full
    /// scale where none were given.
    pub open spec fn mode(&self) -> FCScaleType {
        match self.params() {
            Some(params) => params.fcscaletype,
            None => FCScaleType::Max,
        }
    }

    /// The manual interval in force: that of the display settings, and 0 to
    /// 65535 where none were given.
    pub open spec fn manual_range(&self) -> (i32, i32) {
        match self.params() {
            Some(params) => params.scale_range,
            None => DEFAULT_SCALE_RANGE,
        }
    }

    /// A processor without display settings that has seen no frame.
    pub fn new() -> (processor: ImageProcessor)
        ensures
            processor.params() is None,
            processor.latest() is None,
    {
        ImageProcessor { params: None, lastresult: None }
    }

    /// Puts a snapshot of the display settings in force for the frames to
    /// come.
    pub fn set_params(&mut self, params: GuiParams)
        ensures
            final(self).params() == Some(params),
            final(self).latest() == old(self).latest(),
    {
        self.params = Some(params);
    }

    /// The result of the frame that was processed last.
    pub fn last_result(&self) -> (result: Option<&ProcResult>)
        ensures
            result is Some <==> self.latest() is Some,
            result is Some ==> *result->Some_0 == self.latest()->Some_0,
    {
        self.lastresult.as_ref()
    }

    /// The histogram, the false-colour interval, the mean and the variance of
    /// a monochrome frame.
    fn process_mono<T: MonoPixel>(
        data: &FrameData<T>,
        bit_depth: u8,
        mode: FCScaleType,
        manual_range: (i32, i32),
    ) -> (stats: MonoStats)
        requires
            bit_depth <= MAX_BIT_DEPTH,
            data.data@.len() <= i32::MAX,
        ensures
            is_histogram(values(data.data@), stats.histogram.0@, stats.histogram.1@),
            (stats.fcrange.0 as int, stats.fcrange.1 as int) == resolved_range(
                mode,
                manual_range,
                bit_depth,
                minimum(values(data.data@), T::max_int()) as i32,
                maximum(values(data.data@), 0) as i32,
            ),
            stats.mean.num == seq_sum(values(data.data@)),
            stats.mean.den == floored_count(data.data@.len()),
            stats.var is Some <==> floored_count(data.data@.len()) * seq_sum(
                squares(values(data.data@)),
            ) <= u128::MAX,
            stats.var matches Some(var) ==> var.num == variance_numerator(values(data.data@))
                && var.den == variance_denominator(values(data.data@)),
    {
        let (minval, maxval, bins, hist) = compute_histogram(data.data.as_slice());
        let (mean, var) = compute_mean_and_var(data.data.as_slice());
        let fcrange = resolve(mode, manual_range, bit_depth, minval, maxval);
        MonoStats { histogram: (bins, hist), fcrange, mean, var }
    }

    /// The frames that can be processed: well formed, and of no more pixels
    /// than a bin of the histogram can count.
    pub open spec fn accepts(frame: &RawFrame) -> bool {
        frame.wf() && frame.pixel_count() <= i32::MAX
    }

    /// Whether a frame can be processed.
    pub fn can_process(frame: &RawFrame) -> (ok: bool)
        ensures
            ok == Self::accepts(frame),
    {
        frame.is_wf() && frame.len() <= i32::MAX as usize
    }

    /// Processes a frame and keeps the result as the latest.
    ///
    /// The false-colour mode and the manual interval are those of the display
    /// settings given last, or full scale and 0 to 65535 where none were
    /// given. A colour frame is kept without statistics and with the
    /// full-scale interval of its bit depth.
    pub fn process_frame(&mut self, frame: RawFrame)
        requires
            Self::accepts(&frame),
        ensures
            final(self).params() == old(self).params(),
            final(self).latest() matches Some(result) && result.describes(
                frame,
                old(self).mode(),
                old(self).manual_range(),
            ),
    {
        let (mode, manual_range) = match &self.params {
            Some(params) => (params.fcscaletype, params.scale_range),
            None => (FCScaleType::Max, DEFAULT_SCALE_RANGE),
        };
        let result = match frame {
            RawFrame::Gray8(inner) => {
                let stats = Self::process_mono(&inner.data, inner.bit_depth, mode, manual_range);
                ProcResult {
                    rawframe: RawFrame::Gray8(inner),
                    histogram: stats.histogram,
                    fcrange: stats.fcrange,
                    mean: Some(stats.mean),
                    var: stats.var,
                }
            },
            RawFrame::Gray16(inner) => {
                let stats = Self::process_mono(&inner.data, inner.bit_depth, mode, manual_range);
                ProcResult {
                    rawframe: RawFrame::Gray16(inner),
                    histogram: stats.histogram,
                    fcrange: stats.fcrange,
                    mean: Some(stats.mean),
                    var: stats.var,
                }
            },
            other => {
                let fcrange = resolve(FCScaleType::Max, manual_range, other.bit_depth(), 0, 0);
                ProcResult {
                    rawframe: other,
                    histogram: (Vec::new(), Vec::new()),
                    fcrange,
                    mean: None,
                    var: None,
                }
            },
        };
        self.lastresult = Some(result);
    }
}

} // verus!
