//! A camera frame: a pixel buffer with how and when it was taken.

use crate::framedata::FrameData;
use crate::pixel::{MonoPixel, Pixel, RGBAPixel, RGBPixel};
use crate::scale::MAX_BIT_DEPTH;
use crate::stats::values;
use vstd::prelude::*;

verus! {

/// The bit depth of a frame of which nothing else is known.
pub const DEFAULT_BIT_DEPTH: u8 = 12;

/// One captured image of pixels of type `T`.
#[derive(Debug)]
pub struct CameraFrame<T: Pixel> {
    /// The exposure time, in microseconds.
    pub exposure_us: u64,
    /// The middle of the integration period, in milliseconds since the start
    /// of 1970, UTC.
    pub center_of_integration_ms: i64,
    /// The number of bits of a sample that the sensor fills.
    pub bit_depth: u8,
    /// The pixels.
    pub data: FrameData<T>,
}

/// A frame of any of the pixel types that a camera delivers.
#[derive(Debug)]
pub enum RawFrame {
    /// 8-bit monochrome samples.
    Gray8(CameraFrame<u8>),
    /// 16-bit monochrome samples.
    Gray16(CameraFrame<u16>),
    /// Colour pixels of three channels.
    Rgb(CameraFrame<RGBPixel>),
    /// Colour pixels of four channels.
    Rgba(CameraFrame<RGBAPixel>),
}

impl<T: Pixel> CameraFrame<T> {
    /// The buffer matches the frame's size, and the bit depth is one that a
    /// supported sensor has.
    pub open spec fn wf(&self) -> bool {
        &&& self.data.wf()
        &&& 1 <= self.bit_depth <= MAX_BIT_DEPTH
    }

    /// Whether the buffer matches the frame's size and the bit depth is one
    /// that a supported sensor has.
    pub fn is_wf(&self) -> (ok: bool)
        ensures
            ok == self.wf(),
    {
        self.data.is_wf() && 1 <= self.bit_depth && self.bit_depth <= MAX_BIT_DEPTH
    }

    /// A frame with the given exposure, centre of integration, bit depth and
    /// pixels.
    pub fn create(
        exposure_us: u64,
        center_of_integration_ms: i64,
        bit_depth: u8,
        raw: FrameData<T>,
    ) -> (frame: CameraFrame<T>)
        ensures
            frame.exposure_us == exposure_us,
            frame.center_of_integration_ms == center_of_integration_ms,
            frame.bit_depth == bit_depth,
            frame.data == raw,
    {
        CameraFrame { exposure_us, center_of_integration_ms, bit_depth, data: raw }
    }

    /// A frame without pixels, taken at the given time with no exposure and a
    /// bit depth of 12.
    pub fn empty(center_of_integration_ms: i64) -> (frame: CameraFrame<T>)
        ensures
            frame.wf(),
            frame.exposure_us == 0,
            frame.center_of_integration_ms == center_of_integration_ms,
            frame.bit_depth == DEFAULT_BIT_DEPTH,
            frame.data.width == 0,
            frame.data.height == 0,
            frame.data.data@.len() == 0,
    {
        CameraFrame {
            exposure_us: 0,
            center_of_integration_ms,
            bit_depth: DEFAULT_BIT_DEPTH,
            data: FrameData { width: 0, height: 0, data: Vec::new() },
        }
    }
}

impl RawFrame {
    /// The frame inside is well formed.
    pub open spec fn wf(&self) -> bool {
        match self {
            RawFrame::Gray8(frame) => frame.wf(),
            RawFrame::Gray16(frame) => frame.wf(),
            RawFrame::Rgb(frame) => frame.wf(),
            RawFrame::Rgba(frame) => frame.wf(),
        }
    }

    /// The number of columns, the number of rows and the bit depth.
    pub open spec fn shape(&self) -> (u32, u32, u8) {
        match self {
            RawFrame::Gray8(frame) => (frame.data.width, frame.data.height, frame.bit_depth),
            RawFrame::Gray16(frame) => (frame.data.width, frame.data.height, frame.bit_depth),
            RawFrame::Rgb(frame) => (frame.data.width, frame.data.height, frame.bit_depth),
            RawFrame::Rgba(frame) => (frame.data.width, frame.data.height, frame.bit_depth),
        }
    }

    /// The number of pixels in the buffer.
    pub open spec fn pixel_count(&self) -> nat {
        match self {
            RawFrame::Gray8(frame) => frame.data.data@.len(),
            RawFrame::Gray16(frame) => frame.data.data@.len(),
            RawFrame::Rgb(frame) => frame.data.data@.len(),
            RawFrame::Rgba(frame) => frame.data.data@.len(),
        }
    }

    /// The samples of a monochrome frame as integers; no samples for a
    /// colour frame.
    pub open spec fn samples(&self) -> Seq<int> {
        match self {
            RawFrame::Gray8(frame) => values(frame.data.data@),
            RawFrame::Gray16(frame) => values(frame.data.data@),
            _ => Seq::empty(),
        }
    }

    /// The largest value that a sample of a monochrome frame can have; 0 for
    /// a colour frame.
    pub open spec fn sample_limit(&self) -> int {
        match self {
            RawFrame::Gray8(_) => u8::max_int(),
            RawFrame::Gray16(_) => u16::max_int(),
            _ => 0,
        }
    }

    /// Whether the frame holds monochrome samples.
    pub open spec fn mono(&self) -> bool {
        self is Gray8 || self is Gray16
    }

    /// Whether the frame inside is well formed.
    pub fn is_wf(&self) -> (ok: bool)
        ensures
            ok == self.wf(),
    {
        match self {
            RawFrame::Gray8(frame) => frame.is_wf(),
            RawFrame::Gray16(frame) => frame.is_wf(),
            RawFrame::Rgb(frame) => frame.is_wf(),
            RawFrame::Rgba(frame) => frame.is_wf(),
        }
    }

    /// The number of pixels in the buffer.
    pub fn len(&self) -> (count: usize)
        ensures
            count == self.pixel_count(),
    {
        match self {
            RawFrame::Gray8(frame) => frame.data.data.len(),
            RawFrame::Gray16(frame) => frame.data.data.len(),
            RawFrame::Rgb(frame) => frame.data.data.len(),
            RawFrame::Rgba(frame) => frame.data.data.len(),
        }
    }

    /// Whether the frame holds monochrome samples.
    pub fn is_mono(&self) -> (mono: bool)
        ensures
            mono == self.mono(),
    {
        match self {
            RawFrame::Gray8(_) => true,
            RawFrame::Gray16(_) => true,
            _ => false,
        }
    }

    /// The number of columns.
    pub fn width(&self) -> (width: u32)
        ensures
            width == self.shape().0,
    {
        match self {
            RawFrame::Gray8(frame) => frame.data.width,
            RawFrame::Gray16(frame) => frame.data.width,
            RawFrame::Rgb(frame) => frame.data.width,
            RawFrame::Rgba(frame) => frame.data.width,
        }
    }

    /// The number of rows.
    pub fn height(&self) -> (height: u32)
        ensures
            height == self.shape().1,
    {
        match self {
            RawFrame::Gray8(frame) => frame.data.height,
            RawFrame::Gray16(frame) => frame.data.height,
            RawFrame::Rgb(frame) => frame.data.height,
            RawFrame::Rgba(frame) => frame.data.height,
        }
    }

    /// The bit depth of the sensor.
    pub fn bit_depth(&self) -> (bits: u8)
        ensures
            bits == self.shape().2,
    {
        match self {
            RawFrame::Gray8(frame) => frame.bit_depth,
            RawFrame::Gray16(frame) => frame.bit_depth,
            RawFrame::Rgb(frame) => frame.bit_depth,
            RawFrame::Rgba(frame) => frame.bit_depth,
        }
    }

    /// The sample at column `x`, row `y` of a monochrome frame; 0 where the
    /// frame has no such pixel or is a colour frame.
    pub fn sample_at(&self, x: u32, y: u32) -> (sample: i32)
        requires
            self.wf(),
        ensures
            self.mono() && x < self.shape().0 && y < self.shape().1 ==> sample == self.samples()[y
                * self.shape().0 + x],
            !(self.mono() && x < self.shape().0 && y < self.shape().1) ==> sample == 0,
    {
        match self {
            RawFrame::Gray8(frame) => mono_sample(&frame.data, x, y),
            RawFrame::Gray16(frame) => mono_sample(&frame.data, x, y),
            _ => 0,
        }
    }
}

/// The sample at column `x`, row `y`, or 0 where the frame has no such pixel.
fn mono_sample<T: MonoPixel>(data: &FrameData<T>, x: u32, y: u32) -> (sample: i32)
    requires
        data.wf(),
    ensures
        x < data.width && y < data.height ==> sample == values(data.data@)[y * data.width + x],
        !(x < data.width && y < data.height) ==> sample == 0,
{
    if x < data.width && y < data.height {
        let p: T = data.at(x, y);
        proof {
            p.lemma_range();
            crate::framedata::lemma_cell_index_bounds(
                data.width as int,
                data.height as int,
                x as int,
                y as int,
            );
        }
        p.to_i64() as i32
    } else {
        0
    }
}

impl<T: Pixel> Clone for CameraFrame<T> {
    /// A frame with the same settings and the same pixels.
    fn clone(&self) -> (copy: Self)
        ensures
            copy.exposure_us == self.exposure_us,
            copy.center_of_integration_ms == self.center_of_integration_ms,
            copy.bit_depth == self.bit_depth,
            copy.data.width == self.data.width,
            copy.data.height == self.data.height,
            copy.data.data@ == self.data.data@,
    {
        CameraFrame {
            exposure_us: self.exposure_us,
            center_of_integration_ms: self.center_of_integration_ms,
            bit_depth: self.bit_depth,
            data: self.data.clone(),
        }
    }
}

impl Clone for RawFrame {
    /// A frame of the same pixel type with the same settings and pixels.
    fn clone(&self) -> (copy: Self)
        ensures
            copy.shape() == self.shape(),
            copy.samples() == self.samples(),
            copy.pixel_count() == self.pixel_count(),
            copy.mono() == self.mono(),
            copy.sample_limit() == self.sample_limit(),
            self.wf() ==> copy.wf(),
    {
        match self {
            RawFrame::Gray8(frame) => RawFrame::Gray8(frame.clone()),
            RawFrame::Gray16(frame) => RawFrame::Gray16(frame.clone()),
            RawFrame::Rgb(frame) => RawFrame::Rgb(frame.clone()),
            RawFrame::Rgba(frame) => RawFrame::Rgba(frame.clone()),
        }
    }
}

} // verus!
