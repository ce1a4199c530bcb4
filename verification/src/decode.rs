//! From the bytes that a camera driver delivers to a frame of samples.

use crate::cameraframe::{CameraFrame, RawFrame};
use crate::framedata::FrameData;
use crate::pixel::{rgb_bytes, rgba_bytes, RGBAPixel, RGBPixel};
use crate::scale::MAX_BIT_DEPTH;
use rgb::bytemuck::PodCastError;
use vstd::prelude::*;

verus! {

/// `bytemuck::PodCastError`: why a cast between slices was refused.
#[verifier::external_type_specification]
#[verifier::external_body]
pub struct ExPodCastError(PodCastError);

/// What the bytes of a driver's buffer are.
#[derive(Clone, Copy, Debug, PartialEq, Eq, Structural)]
pub enum PixelType {
    /// One byte for each monochrome sample.
    Gray8,
    /// Two bytes for each monochrome sample, in the byte order of the
    /// machine.
    Gray16,
    /// Three bytes for each pixel: red, green, blue.
    Rgb,
    /// Four bytes for each pixel: red, green, blue, alpha.
    Rgba,
}

/// Why a driver's buffer is not a frame.
#[derive(Clone, Copy, Debug, PartialEq, Eq, Structural)]
pub enum FrameError {
    /// The bit depth is not between 1 and 16.
    BitDepth,
    /// The buffer does not hold the bytes of `width * height` pixels.
    Size,
    /// The buffer cannot be read as 16-bit samples where it lies in memory.
    Cast,
}

impl PixelType {
    /// The number of bytes of a pixel.
    pub open spec fn bytes_per_pixel(self) -> int {
        match self {
            PixelType::Gray8 => 1,
            PixelType::Gray16 => 2,
            PixelType::Rgb => 3,
            PixelType::Rgba => 4,
        }
    }

    /// The number of bytes of a pixel.
    pub fn pixel_size(self) -> (size: usize)
        ensures
            size == self.bytes_per_pixel(),
    {
        match self {
            PixelType::Gray8 => 1,
            PixelType::Gray16 => 2,
            PixelType::Rgb => 3,
            PixelType::Rgba => 4,
        }
    }
}

/// The 16-bit sample that two bytes in memory are, on a machine that stores
/// the high byte first (`big_endian`) or last.
pub open spec fn sample_of_bytes(first: u8, second: u8, big_endian: bool) -> u16 {
    if big_endian {
        (first * 256 + second) as u16
    } else {
        (second * 256 + first) as u16
    }
}

/// `samples` are the 16-bit samples that `bytes` hold in one of the two byte
/// orders.
pub open spec fn is_cast(bytes: Seq<u8>, samples: Seq<u16>, big_endian: bool) -> bool {
    &&& bytes.len() == 2 * samples.len()
    &&& forall|i: int|
        0 <= i < samples.len() ==> samples[i] == sample_of_bytes(
            bytes[2 * i],
            bytes[2 * i + 1],
            big_endian,
        )
}

/// `bytemuck::try_cast_slice` from bytes to 16-bit values, copied out.
///
/// The cast fails for an odd number of bytes and where the bytes do not lie
/// at an even address. Where it succeeds, every two bytes are one value, in
/// the byte order of the machine, which is the same for all of them.
#[verifier::external_body]
fn cast_samples(bytes: &[u8]) -> (samples: Result<Vec<u16>, PodCastError>)
    ensures
        bytes@.len() % 2 != 0 ==> samples is Err,
        samples matches Ok(s) ==> exists|big_endian: bool| is_cast(bytes@, s@, big_endian),
{
    match rgb::bytemuck::try_cast_slice::<u8, u16>(bytes) {
        Ok(samples) => Ok(samples.to_vec()),
        Err(error) => Err(error),
    }
}

/// The pixels of three channels that a buffer of bytes holds.
fn rgb_pixels(bytes: &[u8]) -> (pixels: Vec<RGBPixel>)
    requires
        bytes@.len() % 3 == 0,
    ensures
        3 * pixels@.len() == bytes@.len(),
        rgb_bytes(pixels@) == bytes@,
{
    let n: usize = bytes.len() / 3;
    let mut pixels: Vec<RGBPixel> = Vec::new();
    let mut i: usize = 0;
    while i < n
        invariant
            i <= n,
            3 * n == bytes@.len() <= usize::MAX,
            pixels@.len() == i,
            forall|k: int|
                0 <= k < i ==> pixels@[k] == (RGBPixel {
                    r: bytes@[3 * k],
                    g: bytes@[3 * k + 1],
                    b: bytes@[3 * k + 2],
                }),
        decreases n - i,
    {
        pixels.push(RGBPixel { r: bytes[3 * i], g: bytes[3 * i + 1], b: bytes[3 * i + 2] });
        i = i + 1;
    }
    assert(rgb_bytes(pixels@) =~= bytes@);
    pixels
}

/// The pixels of four channels that a buffer of bytes holds.
pub fn rgba_pixels(bytes: &[u8]) -> (pixels: Vec<RGBAPixel>)
    requires
        bytes@.len() % 4 == 0,
    ensures
        4 * pixels@.len() == bytes@.len(),
        rgba_bytes(pixels@) == bytes@,
{
    let n: usize = bytes.len() / 4;
    let mut pixels: Vec<RGBAPixel> = Vec::new();
    let mut i: usize = 0;
    while i < n
        invariant
            i <= n,
            4 * n == bytes@.len() <= usize::MAX,
            pixels@.len() == i,
            forall|k: int|
                0 <= k < i ==> pixels@[k] == (RGBAPixel {
                    r: bytes@[4 * k],
                    g: bytes@[4 * k + 1],
                    b: bytes@[4 * k + 2],
                    a: bytes@[4 * k + 3],
                }),
        decreases n - i,
    {
        pixels.push(
            RGBAPixel {
                r: bytes[4 * i],
                g: bytes[4 * i + 1],
                b: bytes[4 * i + 2],
                a: bytes[4 * i + 3],
            },
        );
        i = i + 1;
    }
    assert(rgba_bytes(pixels@) =~= bytes@);
    pixels
}

/// A copy of a buffer of bytes.
fn gray8_samples(bytes: &[u8]) -> (samples: Vec<u8>)
    ensures
        samples@ == bytes@,
{
    let mut samples: Vec<u8> = Vec::new();
    let mut i: usize = 0;
    while i < bytes.len()
        invariant
            i <= bytes@.len(),
            samples@ == bytes@.take(i as int),
        decreases bytes@.len() - i,
    {
        samples.push(bytes[i]);
        assert(samples@ =~= bytes@.take(i + 1));
        i = i + 1;
    }
    assert(bytes@.take(bytes@.len() as int) =~= bytes@);
    samples
}

/// What a frame holds of a driver's buffer: its pixels are the bytes of the
/// buffer, read as the pixel type says.
pub open spec fn holds_bytes(frame: RawFrame, pixeltype: PixelType, bytes: Seq<u8>) -> bool {
    match pixeltype {
        PixelType::Gray8 => frame matches RawFrame::Gray8(inner) && inner.data.data@ == bytes,
        PixelType::Gray16 => frame matches RawFrame::Gray16(inner) && exists|big_endian: bool|
            is_cast(bytes, inner.data.data@, big_endian),
        PixelType::Rgb => frame matches RawFrame::Rgb(inner) && rgb_bytes(inner.data.data@)
            == bytes,
        PixelType::Rgba => frame matches RawFrame::Rgba(inner) && rgba_bytes(inner.data.data@)
            == bytes,
    }
}

/// The frame that a driver's buffer holds.
///
/// A bit depth outside 1 to 16 is refused first, then a buffer that is not
/// `width * height` pixels long. A buffer of 16-bit samples can still be
/// refused where it lies at an odd address; no other buffer is.
pub fn frame_from_bytes(
    pixeltype: PixelType,
    width: u32,
    height: u32,
    bit_depth: u8,
    exposure_us: u64,
    center_of_integration_ms: i64,
    bytes: &[u8],
) -> (frame: Result<RawFrame, FrameError>)
    ensures
        match frame {
            Ok(f) => {
                &&& 1 <= bit_depth <= MAX_BIT_DEPTH
                &&& bytes@.len() == width * height * pixeltype.bytes_per_pixel()
                &&& f.wf()
                &&& f.shape() == (width, height, bit_depth)
                &&& holds_bytes(f, pixeltype, bytes@)
            },
            Err(FrameError::BitDepth) => !(1 <= bit_depth <= MAX_BIT_DEPTH),
            Err(FrameError::Size) => {
                &&& 1 <= bit_depth <= MAX_BIT_DEPTH
                &&& bytes@.len() != width * height * pixeltype.bytes_per_pixel()
            },
            Err(FrameError::Cast) => {
                &&& 1 <= bit_depth <= MAX_BIT_DEPTH
                &&& bytes@.len() == width * height * pixeltype.bytes_per_pixel()
                &&& pixeltype == PixelType::Gray16
            },
        },
{
    if bit_depth < 1 || bit_depth > MAX_BIT_DEPTH {
        return Err(FrameError::BitDepth);
    }
    assert(width * height <= 0xffff_ffff * 0xffff_ffff) by (nonlinear_arith)
        requires
            0 <= width <= 0xffff_ffff,
            0 <= height <= 0xffff_ffff,
    ;
    let pixels: u128 = width as u128 * height as u128;
    if bytes.len() as u128 != pixels * pixeltype.pixel_size() as u128 {
        return Err(FrameError::Size);
    }
    assert(bytes@.len() == pixels * pixeltype.bytes_per_pixel());
    assert(pixels == width * height);
    match pixeltype {
        PixelType::Gray8 => {
            let data = FrameData { width, height, data: gray8_samples(bytes) };
            Ok(
                RawFrame::Gray8(
                    CameraFrame::create(exposure_us, center_of_integration_ms, bit_depth, data),
                ),
            )
        },
        PixelType::Gray16 => match cast_samples(bytes) {
            Ok(samples) => {
                let data = FrameData { width, height, data: samples };
                Ok(
                    RawFrame::Gray16(
                        CameraFrame::create(exposure_us, center_of_integration_ms, bit_depth, data),
                    ),
                )
            },
            Err(_) => Err(FrameError::Cast),
        },
        PixelType::Rgb => {
            let data = FrameData { width, height, data: rgb_pixels(bytes) };
            Ok(
                RawFrame::Rgb(
                    CameraFrame::create(exposure_us, center_of_integration_ms, bit_depth, data),
                ),
            )
        },
        PixelType::Rgba => {
            let data = FrameData { width, height, data: rgba_pixels(bytes) };
            Ok(
                RawFrame::Rgba(
                    CameraFrame::create(exposure_us, center_of_integration_ms, bit_depth, data),
                ),
            )
        },
    }
}

} // verus!
