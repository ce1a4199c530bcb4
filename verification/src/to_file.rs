//! The bytes of a frame as a PNG file holds them.

use crate::framedata::FrameData;
use crate::pixel::{rgb_bytes, rgba_bytes, MonoPixel, RGBAPixel, RGBPixel};
use crate::stats::values;
use vstd::prelude::*;

verus! {

/// The number of bits of a channel in a PNG file.
#[derive(Clone, Copy, Debug, PartialEq, Eq, Structural)]
pub enum PngDepth {
    /// One byte for each channel.
    Eight,
    /// Two bytes for each channel, the high byte first.
    Sixteen,
}

/// The bytes of monochrome samples in a PNG file: one byte for each sample of
/// a type of up to 8 bits, else two bytes, the high byte first.
pub open spec fn mono_bytes(v: Seq<int>, wide: bool) -> Seq<u8> {
    if wide {
        Seq::new(
            2 * v.len(),
            |k: int| if k % 2 == 0 {
                (v[k / 2] / 256) as u8
            } else {
                (v[k / 2] % 256) as u8
            },
        )
    } else {
        Seq::new(v.len(), |k: int| v[k] as u8)
    }
}

impl<T: MonoPixel> FrameData<T> {
    /// The bit depth of the grayscale PNG file of a frame of this sample
    /// type: sixteen where the type holds more than 255, eight otherwise.
    pub fn png_depth() -> (depth: PngDepth)
        ensures
            depth == PngDepth::Sixteen <==> T::max_int() > 255,
    {
        if T::max_value().to_i64() > 255 {
            PngDepth::Sixteen
        } else {
            PngDepth::Eight
        }
    }

    /// The image data of the grayscale PNG file of the frame.
    pub fn png_bytes(&self) -> (bytes: Vec<u8>)
        ensures
            bytes@ == mono_bytes(values(self.data@), T::max_int() > 255),
    {
        let wide: bool = T::max_value().to_i64() > 255;
        let ghost full = mono_bytes(values(self.data@), wide);
        let n: usize = self.data.len();
        let mut bytes: Vec<u8> = Vec::new();
        let mut i: usize = 0;
        while i < n
            invariant
                i <= n,
                n == self.data@.len(),
                wide == (T::max_int() > 255),
                full == mono_bytes(values(self.data@), wide),
                bytes@.len() == if wide {
                    2 * i
                } else {
                    i as int
                },
                forall|k: int| 0 <= k < bytes@.len() ==> bytes@[k] == full[k],
            decreases n - i,
        {
            let x: T = self.data[i];
            proof {
                x.lemma_range();
            }
            let v: i64 = x.to_i64();
            if wide {
                bytes.push((v / 256) as u8);
                bytes.push((v % 256) as u8);
            } else {
                bytes.push(v as u8);
            }
            i = i + 1;
        }
        proof {
            assert(bytes@ =~= full);
        }
        bytes
    }
}

impl FrameData<RGBAPixel> {
    /// The image data of the RGBA PNG file of the frame.
    pub fn png_bytes(&self) -> (bytes: Vec<u8>)
        ensures
            bytes@ == rgba_bytes(self.data@),
    {
        let ghost full = rgba_bytes(self.data@);
        let n: usize = self.data.len();
        let mut bytes: Vec<u8> = Vec::new();
        let mut i: usize = 0;
        while i < n
            invariant
                i <= n,
                n == self.data@.len(),
                full == rgba_bytes(self.data@),
                bytes@.len() == 4 * i,
                forall|k: int| 0 <= k < bytes@.len() ==> bytes@[k] == full[k],
            decreases n - i,
        {
            let p: RGBAPixel = self.data[i];
            bytes.push(p.r);
            bytes.push(p.g);
            bytes.push(p.b);
            bytes.push(p.a);
            i = i + 1;
        }
        proof {
            assert(bytes@ =~= full);
        }
        bytes
    }
}

impl FrameData<RGBPixel> {
    /// The image data of the RGB PNG file of the frame.
    pub fn png_bytes(&self) -> (bytes: Vec<u8>)
        ensures
            bytes@ == rgb_bytes(self.data@),
    {
        let ghost full = rgb_bytes(self.data@);
        let n: usize = self.data.len();
        let mut bytes: Vec<u8> = Vec::new();
        let mut i: usize = 0;
        while i < n
            invariant
                i <= n,
                n == self.data@.len(),
                full == rgb_bytes(self.data@),
                bytes@.len() == 3 * i,
                forall|k: int| 0 <= k < bytes@.len() ==> bytes@[k] == full[k],
            decreases n - i,
        {
            let p: RGBPixel = self.data[i];
            bytes.push(p.r);
            bytes.push(p.g);
            bytes.push(p.b);
            i = i + 1;
        }
        proof {
            assert(bytes@ =~= full);
        }
        bytes
    }
}

} // verus!
