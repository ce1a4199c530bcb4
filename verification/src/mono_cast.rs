//! From frames of one pixel type to frames of another.

use crate::colormap::ColorMap;
use crate::framedata::FrameData;
use crate::pixel::{MonoPixel, RGBAPixel};
use crate::scale::{scale_width, width_of};
use crate::stats::values;
use crate::tone::{false_colours, ToneCurve};
use vstd::prelude::*;

verus! {

impl<T: MonoPixel> FrameData<T> {
    /// The frame with the same samples in another sample type.
    pub fn from<T2: MonoPixel>(other: &FrameData<T2>) -> (frame: FrameData<T>)
        requires
            forall|i: int| 0 <= i < other.data@.len() ==> other.value_at(i) <= T::max_int(),
        ensures
            frame.same_shape(other),
            forall|i: int| 0 <= i < other.data@.len() ==> frame.value_at(i) == other.value_at(i),
    {
        let n: usize = other.data.len();
        let mut data: Vec<T> = Vec::new();
        let mut i: usize = 0;
        while i < n
            invariant
                i <= n,
                n == other.data@.len(),
                data@.len() == i,
                forall|k: int| 0 <= k < n ==> other.value_at(k) <= T::max_int(),
                forall|k: int| 0 <= k < i ==> data@[k].value() == other.value_at(k),
            decreases n - i,
        {
            let x: T2 = other.data[i];
            proof {
                x.lemma_range();
                assert(other.value_at(i as int) <= T::max_int());
            }
            data.push(T::from_i64(x.to_i64()).unwrap());
            i = i + 1;
        }
        FrameData { width: other.width, height: other.height, data }
    }

    /// The width of the false-colour interval between two samples, at least 1.
    pub open spec fn interval_width(minscale: T, maxscale: T) -> int {
        width_of(minscale.value(), maxscale.value())
    }

    /// The false-colour picture of the frame.
    ///
    /// `minscale` is the sample shown in the first colour of the map and
    /// `maxscale` the sample shown in the last; `tone` leads from a sample's
    /// place between them to its colour.
    pub fn to_rgba(&self, minscale: T, maxscale: T, tone: &ToneCurve, cmap: &ColorMap) -> (picture:
        FrameData<RGBAPixel>)
        requires
            tone.fits(Self::interval_width(minscale, maxscale)),
        ensures
            picture.width == self.width,
            picture.height == self.height,
            picture.data@ == false_colours(
                values(self.data@),
                minscale.value(),
                Self::interval_width(minscale, maxscale),
                *tone,
                cmap@,
            ),
    {
        proof {
            minscale.lemma_range();
            maxscale.lemma_range();
        }
        let min: i64 = minscale.to_i64();
        let width: i64 = scale_width((min as i32, maxscale.to_i64() as i32));
        let n: usize = self.data.len();
        let mut data: Vec<RGBAPixel> = Vec::new();
        let mut i: usize = 0;
        while i < n
            invariant
                i <= n,
                n == self.data@.len(),
                data@.len() == i,
                min == minscale.value(),
                width == Self::interval_width(minscale, maxscale),
                1 <= width <= 0xffff_ffff,
                0 <= min <= 0xffff,
                tone.fits(width as int),
                forall|k: int|
                    0 <= k < i ==> data@[k] == cmap@[tone.index(
                        self.value_at(k),
                        min as int,
                        width as int,
                    )],
            decreases n - i,
        {
            let x: T = self.data[i];
            proof {
                x.lemma_range();
            }
            let index: usize = tone.color_index(x.to_i64(), min, width);
            data.push(cmap[index]);
            i = i + 1;
        }
        proof {
            assert(data@ =~= false_colours(
                values(self.data@),
                min as int,
                width as int,
                *tone,
                cmap@,
            ));
        }
        FrameData { width: self.width, height: self.height, data }
    }
}

} // verus!
