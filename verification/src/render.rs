//! From a processed frame to the picture on the screen: false colours, then
//! resampling to the size that the display asks for.

use crate::cameraframe::RawFrame;
use crate::colormap::{is_unit_gamma, lut, named_table, unit_gamma, ColorMap};
use crate::decode::rgba_pixels;
use crate::framedata::FrameData;
use crate::pixel::{rgba_bytes, MonoPixel, RGBAPixel};
use crate::procresult::ProcResult;
use crate::resize::{image_bytes, image_height, image_new, image_size, image_store, image_to_vec, image_wf, image_width, resize_image, resizer_new, resizer_scratch_size};
use crate::scale::{range_width, scale_width, GuiParams};
use crate::stats::values;
use crate::tone::{false_colours, ToneCurve};
use fast_image_resize::images::Image;
use fast_image_resize::Resizer;
use vstd::prelude::*;

verus! {

/// The width and the height of the two pictures that a new renderer holds.
pub const INITIAL_SIZE: u32 = 512;

/// Draws frames in false colours at any size.
///
/// The renderer keeps the picture at its own size and the resampled picture
/// at the display's size between calls, and makes a new buffer for either only
/// where its size changes.
pub struct Renderer {
    resizer: Resizer,
    unresized: Image<'static>,
    resized: Image<'static>,
    allocations: u64,
}

/// The tone curve in force: the linear one where the gamma is taken for 1,
/// the given one otherwise.
pub open spec fn tone_in_force(gamma_permille: u32, tone: ToneCurve) -> ToneCurve {
    if unit_gamma(gamma_permille) {
        ToneCurve::Linear
    } else {
        tone
    }
}

/// A count of buffers after one more was made; the count stops at the largest
/// number that it can hold.
pub open spec fn one_more(count: u64) -> u64 {
    if count < u64::MAX {
        (count + 1) as u64
    } else {
        count
    }
}

/// The number of buffers made after a call: one more for each of the two
/// pictures whose size changed.
pub open spec fn allocations_after(before: u64, source_changed: bool, target_changed: bool) -> u64 {
    let with_source = if source_changed {
        one_more(before)
    } else {
        before
    };
    if target_changed {
        one_more(with_source)
    } else {
        with_source
    }
}

/// A picture of this size fits a buffer: its bytes can be counted.
pub open spec fn fits_buffer(width: u32, height: u32) -> bool {
    4 * width * height <= isize::MAX
}

/// Whether a picture of this size fits a buffer.
pub fn size_fits_buffer(width: u32, height: u32) -> (fits: bool)
    ensures
        fits == fits_buffer(width, height),
{
    assert(width * height <= 0xffff_ffff * 0xffff_ffff) by (nonlinear_arith)
        requires
            0 <= width <= 0xffff_ffff,
            0 <= height <= 0xffff_ffff,
    ;
    assert(4 * width * height == 4 * (width * height)) by (nonlinear_arith);
    4 * (width as u128 * height as u128) <= isize::MAX as u128
}

/// Writes the false-colour picture of a monochrome frame into an image of the
/// frame's size.
fn paint<T: MonoPixel>(
    image: &mut Image<'static>,
    data: &FrameData<T>,
    range: (i32, i32),
    tone: &ToneCurve,
    cmap: &ColorMap,
)
    requires
        image_wf(*old(image)),
        image_bytes(*old(image)).len() == 4 * data.data@.len(),
        4 * data.data@.len() <= usize::MAX,
        tone.fits(range_width(range)),
    ensures
        image_size(*final(image)) == image_size(*old(image)),
        image_bytes(*final(image)) == rgba_bytes(
            false_colours(
                values(data.data@),
                range.0 as int,
                range_width(range),
                *tone,
                cmap@,
            ),
        ),
{
    let min: i64 = range.0 as i64;
    let width: i64 = scale_width(range);
    let n: usize = data.data.len();
    let ghost full = rgba_bytes(
        false_colours(values(data.data@), min as int, width as int, *tone, cmap@),
    );
    let mut i: usize = 0;
    while i < n
        invariant
            i <= n,
            n == data.data@.len(),
            min == range.0,
            width == range_width(range),
            1 <= width <= 0xffff_ffff,
            tone.fits(width as int),
            full == rgba_bytes(
                false_colours(values(data.data@), min as int, width as int, *tone, cmap@),
            ),
            image_size(*image) == image_size(*old(image)),
            image_bytes(*image).len() == 4 * n,
            4 * n <= usize::MAX,
            forall|k: int| 0 <= k < 4 * i ==> image_bytes(*image)[k] == full[k],
        decreases n - i,
    {
        let x: T = data.data[i];
        proof {
            x.lemma_range();
        }
        let pixel: RGBAPixel = cmap[tone.color_index(x.to_i64(), min, width)];
        let at: usize = 4 * i;
        image_store(image, at, pixel.r);
        image_store(image, at + 1, pixel.g);
        image_store(image, at + 2, pixel.b);
        image_store(image, at + 3, pixel.a);
        proof {
            assert(full[at as int] == pixel.r);
            assert(full[at + 1] == pixel.g);
            assert(full[at + 2] == pixel.b);
            assert(full[at + 3] == pixel.a);
        }
        i = i + 1;
    }
    proof {
        assert(image_bytes(*image) =~= full);
    }
}

/// Writes a picture into an image of its size.
fn store(image: &mut Image<'static>, pixels: &Vec<RGBAPixel>)
    requires
        image_wf(*old(image)),
        image_bytes(*old(image)).len() == 4 * pixels@.len(),
        4 * pixels@.len() <= usize::MAX,
    ensures
        image_size(*final(image)) == image_size(*old(image)),
        image_bytes(*final(image)) == rgba_bytes(pixels@),
{
    let n: usize = pixels.len();
    let ghost full = rgba_bytes(pixels@);
    let mut i: usize = 0;
    while i < n
        invariant
            i <= n,
            n == pixels@.len(),
            full == rgba_bytes(pixels@),
            image_size(*image) == image_size(*old(image)),
            image_bytes(*image).len() == 4 * n,
            4 * n <= usize::MAX,
            forall|k: int| 0 <= k < 4 * i ==> image_bytes(*image)[k] == full[k],
        decreases n - i,
    {
        let pixel: RGBAPixel = pixels[i];
        let at: usize = 4 * i;
        image_store(image, at, pixel.r);
        image_store(image, at + 1, pixel.g);
        image_store(image, at + 2, pixel.b);
        image_store(image, at + 3, pixel.a);
        proof {
            assert(full[at as int] == pixel.r);
            assert(full[at + 1] == pixel.g);
            assert(full[at + 2] == pixel.b);
            assert(full[at + 3] == pixel.a);
        }
        i = i + 1;
    }
    proof {
        assert(image_bytes(*image) =~= full);
    }
}

impl Renderer {
    /// Both pictures hold four bytes for each of their pixels.
    pub closed spec fn wf(&self) -> bool {
        &&& image_wf(self.unresized)
        &&& image_wf(self.resized)
    }

    /// The size of the picture before resampling: that of the picture drawn or
    /// handed in last.
    pub closed spec fn source_size(&self) -> (u32, u32) {
        image_size(self.unresized)
    }

    /// The size of the resampled picture: that asked for last.
    pub closed spec fn target_size(&self) -> (u32, u32) {
        image_size(self.resized)
    }

    /// The bytes of the picture before resampling.
    pub closed spec fn source_bytes(&self) -> Seq<u8> {
        image_bytes(self.unresized)
    }

    /// The bytes of the resampled picture.
    pub closed spec fn target_bytes(&self) -> Seq<u8> {
        image_bytes(self.resized)
    }

    /// The number of picture buffers made since the renderer was made.
    pub closed spec fn buffers_made(&self) -> u64 {
        self.allocations
    }

    /// A renderer with two black, transparent pictures of 512 by 512 pixels.
    pub fn new() -> (renderer: Renderer)
        ensures
            renderer.wf(),
            renderer.source_size() == (INITIAL_SIZE, INITIAL_SIZE),
            renderer.target_size() == (INITIAL_SIZE, INITIAL_SIZE),
            renderer.buffers_made() == 0,
    {
        Renderer {
            resizer: resizer_new(),
            unresized: image_new(INITIAL_SIZE, INITIAL_SIZE),
            resized: image_new(INITIAL_SIZE, INITIAL_SIZE),
            allocations: 0,
        }
    }

    /// The number of picture buffers made since the renderer was made.
    #[verifier::when_used_as_spec(buffers_made)]
    pub fn allocations(&self) -> (made: u64)
        ensures
            made == self.buffers_made(),
    {
        self.allocations
    }

    /// The number of bytes that the scratch buffers of the resampler take, for
    /// those who watch the memory of the renderer.
    pub fn scratch_size(&self) -> usize {
        resizer_scratch_size(&self.resizer)
    }

    /// Counts one more buffer.
    fn count_allocation(&mut self)
        ensures
            final(self).allocations == one_more(old(self).allocations),
            final(self).unresized == old(self).unresized,
            final(self).resized == old(self).resized,
    {
        if self.allocations < u64::MAX {
            self.allocations = self.allocations + 1;
        }
    }

    /// Makes the picture before resampling `width` by `height` pixels: a new,
    /// black and transparent one where the size differs from that of the
    /// picture held, and the picture held otherwise.
    fn prepare_source(&mut self, width: u32, height: u32)
        requires
            old(self).wf(),
            fits_buffer(width, height),
        ensures
            final(self).wf(),
            final(self).source_size() == (width, height),
            final(self).resized == old(self).resized,
            old(self).source_size() == (width, height) ==> final(self).source_bytes() == old(
                self,
            ).source_bytes() && final(self).allocations == old(self).allocations,
            old(self).source_size() != (width, height) ==> final(self).source_bytes() == Seq::new(
                (4 * width * height) as nat,
                |i: int| 0u8,
            ) && final(self).allocations == one_more(old(self).allocations),
    {
        if image_width(&self.unresized) != width || image_height(&self.unresized) != height {
            self.unresized = image_new(width, height);
            self.count_allocation();
        }
    }

    /// Resamples the picture held to `width` by `height` pixels and gives the
    /// bytes of the result.
    fn resample(&mut self, width: u32, height: u32) -> (picture: Vec<u8>)
        requires
            old(self).wf(),
            fits_buffer(width, height),
        ensures
            final(self).wf(),
            final(self).unresized == old(self).unresized,
            final(self).target_size() == (width, height),
            final(self).allocations == if old(self).target_size() != (width, height) {
                one_more(old(self).allocations)
            } else {
                old(self).allocations
            },
            picture@ == final(self).target_bytes(),
            picture@.len() == 4 * width * height,
            final(self).source_size() == (width, height) ==> picture@ == final(self).source_bytes(),
    {
        if image_width(&self.resized) != width || image_height(&self.resized) != height {
            self.resized = image_new(width, height);
            self.count_allocation();
        }
        let _ = resize_image(&mut self.resizer, &self.unresized, &mut self.resized);
        image_to_vec(&self.resized)
    }

    /// What can be resized: a well-formed picture, where it and the picture
    /// asked for fit a buffer.
    pub open spec fn accepts_picture(picture: &FrameData<RGBAPixel>, width: u32, height: u32) -> bool {
        &&& picture.wf()
        &&& fits_buffer(picture.width, picture.height)
        &&& fits_buffer(width, height)
    }

    /// Whether `resize` can be called with these arguments.
    pub fn can_resize(picture: &FrameData<RGBAPixel>, width: u32, height: u32) -> (ok: bool)
        ensures
            ok == Self::accepts_picture(picture, width, height),
    {
        picture.is_wf() && size_fits_buffer(picture.width, picture.height) && size_fits_buffer(
            width,
            height,
        )
    }

    /// Resamples a picture to `width` by `height` pixels.
    ///
    /// Where the picture has that size already, what comes back is the
    /// picture, pixel for pixel. A new buffer is made for the picture only
    /// where its size differs from that of the picture before, and for the
    /// resampled picture only where the size asked for differs from the size
    /// asked for before.
    pub fn resize(&mut self, picture: &FrameData<RGBAPixel>, width: u32, height: u32) -> (resized:
        FrameData<RGBAPixel>)
        requires
            old(self).wf(),
            Self::accepts_picture(picture, width, height),
        ensures
            final(self).wf(),
            final(self).source_size() == (picture.width, picture.height),
            final(self).target_size() == (width, height),
            final(self).buffers_made() == allocations_after(
                old(self).buffers_made(),
                old(self).source_size() != (picture.width, picture.height),
                old(self).target_size() != (width, height),
            ),
            final(self).source_bytes() == rgba_bytes(picture.data@),
            resized.wf(),
            resized.width == width,
            resized.height == height,
            rgba_bytes(resized.data@) == final(self).target_bytes(),
            (picture.width, picture.height) == (width, height) ==> resized.data@ == picture.data@,
    {
        self.prepare_source(picture.width, picture.height);
        proof {
            let (w, h) = (picture.width as int, picture.height as int);
            assert(4 * w * h == 4 * (w * h)) by (nonlinear_arith);
            let (w, h) = (width as int, height as int);
            assert(4 * w * h == 4 * (w * h)) by (nonlinear_arith);
        }
        store(&mut self.unresized, &picture.data);
        let bytes = self.resample(width, height);
        let data = rgba_pixels(bytes.as_slice());
        proof {
            if (picture.width, picture.height) == (width, height) {
                lemma_rgba_bytes_injective(data@, picture.data@);
            }
        }
        FrameData { width, height, data }
    }

    /// What can be drawn: a result with a well-formed frame, at sizes whose
    /// pictures fit a buffer, with a tone curve that fits the result's
    /// false-colour interval where the gamma calls for it.
    pub open spec fn accepts(
        result: &ProcResult,
        params: &GuiParams,
        tone: &ToneCurve,
        width: u32,
        height: u32,
    ) -> bool {
        &&& result.rawframe.wf()
        &&& !unit_gamma(params.gamma_permille) ==> tone.fits(range_width(result.fcrange))
        &&& fits_buffer(result.rawframe.shape().0, result.rawframe.shape().1)
        &&& fits_buffer(width, height)
    }

    /// Whether `render` can be called with these arguments.
    pub fn can_render(
        result: &ProcResult,
        params: &GuiParams,
        tone: &ToneCurve,
        width: u32,
        height: u32,
    ) -> (ok: bool)
        ensures
            ok == Self::accepts(result, params, tone, width, height),
    {
        let fits: bool = is_unit_gamma(params.gamma_permille) || match tone {
            ToneCurve::Linear => true,
            ToneCurve::Table(table) => table.len() as u128 == scale_width(result.fcrange) as u128
                + 1,
        };
        result.rawframe.is_wf() && fits && size_fits_buffer(
            result.rawframe.width(),
            result.rawframe.height(),
        ) && size_fits_buffer(width, height)
    }

    /// Draws the frame of a result in false colours and resamples the picture
    /// to `width` by `height` pixels. What comes back are the bytes of that
    /// picture: red, green, blue and alpha of each pixel, row after row.
    ///
    /// The colour map is that of the name in the display settings, the
    /// grayscale map for an unknown name. A sample's colour index follows
    /// the linear scale over the result's false-colour interval where the
    /// gamma of the settings is taken for 1, and `tone` otherwise. A colour
    /// frame leaves the false-colour picture as it was.
    ///
    /// Where the frame has the size asked for, the picture is the
    /// false-colour picture itself, byte for byte. A new buffer is made for
    /// the false-colour picture only where the frame's size differs from that
    /// of the frame before, and for the resampled picture only where the size
    /// asked for differs from the size asked for before.
    pub fn render(
        &mut self,
        result: &ProcResult,
        params: &GuiParams,
        tone: &ToneCurve,
        width: u32,
        height: u32,
    ) -> (picture: Vec<u8>)
        requires
            old(self).wf(),
            Self::accepts(result, params, tone, width, height),
        ensures
            final(self).wf(),
            final(self).source_size() == (result.rawframe.shape().0, result.rawframe.shape().1),
            final(self).target_size() == (width, height),
            final(self).buffers_made() == allocations_after(
                old(self).buffers_made(),
                old(self).source_size() != final(self).source_size(),
                old(self).target_size() != (width, height),
            ),
            result.rawframe.mono() ==> final(self).source_bytes() == rgba_bytes(
                false_colours(
                    result.rawframe.samples(),
                    result.fcrange.0 as int,
                    range_width(result.fcrange),
                    tone_in_force(params.gamma_permille, *tone),
                    named_table(params.colorscale@),
                ),
            ),
            !result.rawframe.mono() && old(self).source_size() == final(self).source_size()
                ==> final(self).source_bytes() == old(self).source_bytes(),
            !result.rawframe.mono() && old(self).source_size() != final(self).source_size()
                ==> final(self).source_bytes() == Seq::new(
                (4 * result.rawframe.shape().0 * result.rawframe.shape().1) as nat,
                |i: int| 0u8,
            ),
            picture@ == final(self).target_bytes(),
            picture@.len() == 4 * width * height,
            final(self).source_size() == (width, height) ==> picture@ == final(self).source_bytes(),
    {
        let cmap: ColorMap = lut(params.colorscale.as_str());
        let linear = ToneCurve::Linear;
        let tone: &ToneCurve = if is_unit_gamma(params.gamma_permille) {
            &linear
        } else {
            tone
        };
        let frame_width: u32 = result.rawframe.width();
        let frame_height: u32 = result.rawframe.height();
        self.prepare_source(frame_width, frame_height);
        proof {
            let (w, h) = (frame_width as int, frame_height as int);
            assert(4 * w * h == 4 * (w * h)) by (nonlinear_arith);
        }
        match &result.rawframe {
            RawFrame::Gray8(frame) => {
                paint(&mut self.unresized, &frame.data, result.fcrange, tone, &cmap);
            },
            RawFrame::Gray16(frame) => {
                paint(&mut self.unresized, &frame.data, result.fcrange, tone, &cmap);
            },
            _ => {},
        }
        self.resample(width, height)
    }
}

/// Pictures with the same bytes are the same picture.
pub proof fn lemma_rgba_bytes_injective(a: Seq<RGBAPixel>, b: Seq<RGBAPixel>)
    requires
        rgba_bytes(a) == rgba_bytes(b),
    ensures
        a == b,
{
    assert(rgba_bytes(a).len() == 4 * a.len());
    assert(rgba_bytes(b).len() == 4 * b.len());
    assert forall|i: int| 0 <= i < a.len() implies a[i] == b[i] by {
        let (x, y) = (rgba_bytes(a), rgba_bytes(b));
        assert(x[4 * i] == y[4 * i]);
        assert(x[4 * i + 1] == y[4 * i + 1]);
        assert(x[4 * i + 2] == y[4 * i + 2]);
        assert(x[4 * i + 3] == y[4 * i + 3]);
        assert(x[4 * i] == a[i].r && x[4 * i + 1] == a[i].g && x[4 * i + 2] == a[i].b && x[4 * i
            + 3] == a[i].a);
        assert(y[4 * i] == b[i].r && y[4 * i + 1] == b[i].g && y[4 * i + 2] == b[i].b && y[4 * i
            + 3] == b[i].a);
    }
    assert(a =~= b);
}

} // verus!
