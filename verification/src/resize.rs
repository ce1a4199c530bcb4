//! The pixel buffers and the resampler of `fast_image_resize`, with what the
//! library relies on of them. Nothing here is proved: each contract is taken
//! from the source of `fast_image_resize`.

use fast_image_resize::images::Image;
use fast_image_resize::{PixelType, ResizeError, Resizer};
use vstd::prelude::*;

verus! {

/// `fast_image_resize::images::Image`: a picture that owns its pixel buffer.
#[verifier::external_type_specification]
#[verifier::external_body]
pub struct ExImage<'a>(Image<'a>);

/// `fast_image_resize::Resizer`: the resampler with its scratch buffers.
#[verifier::external_type_specification]
#[verifier::external_body]
pub struct ExResizer(Resizer);

/// `fast_image_resize::ResizeError`: why a resampling was refused.
#[verifier::external_type_specification]
#[verifier::external_body]
pub struct ExResizeError(ResizeError);

/// The bytes of an image's pixel buffer: red, green, blue and alpha of each
/// pixel, row after row.
pub uninterp spec fn image_bytes(image: Image<'static>) -> Seq<u8>;

/// The width and the height that an image was made with.
pub uninterp spec fn image_size(image: Image<'static>) -> (u32, u32);

/// The buffer of an image holds exactly four bytes for each of its pixels.
pub open spec fn image_wf(image: Image<'static>) -> bool {
    image_bytes(image).len() == 4 * image_size(image).0 * image_size(image).1
}

/// `Image::new` with the pixel type `U8x4`: an image of the given size whose
/// buffer holds four zero bytes for each pixel.
#[verifier::external_body]
pub(crate) fn image_new(width: u32, height: u32) -> (image: Image<'static>)
    requires
        4 * width * height <= isize::MAX,
    ensures
        image_size(image) == (width, height),
        image_bytes(image) == Seq::new((4 * width * height) as nat, |i: int| 0u8),
{
    Image::new(width, height, PixelType::U8x4)
}

/// `Image::width`: the width that the image was made with.
#[verifier::external_body]
pub(crate) fn image_width(image: &Image<'static>) -> (width: u32)
    ensures
        width == image_size(*image).0,
{
    image.width()
}

/// `Image::height`: the height that the image was made with.
#[verifier::external_body]
pub(crate) fn image_height(image: &Image<'static>) -> (height: u32)
    ensures
        height == image_size(*image).1,
{
    image.height()
}

/// `Image::buffer_mut`, to store one byte: the byte at `index` becomes
/// `value`, and nothing else of the image changes.
#[verifier::external_body]
pub(crate) fn image_store(image: &mut Image<'static>, index: usize, value: u8)
    requires
        index < image_bytes(*old(image)).len(),
    ensures
        image_size(*final(image)) == image_size(*old(image)),
        image_bytes(*final(image)) == image_bytes(*old(image)).update(index as int, value),
{
    image.buffer_mut()[index] = value;
}

/// `Image::buffer`, copied out: the bytes of the pixel buffer.
#[verifier::external_body]
pub(crate) fn image_to_vec(image: &Image<'static>) -> (bytes: Vec<u8>)
    ensures
        bytes@ == image_bytes(*image),
{
    image.buffer().to_vec()
}

/// `Resizer::new`: a resampler with empty scratch buffers.
#[verifier::external_body]
pub(crate) fn resizer_new() -> Resizer {
    Resizer::new()
}

/// `Resizer::size_of_internal_buffers`: the number of bytes that the scratch
/// buffers of the resampler take. The allocator has a say in the number, so
/// nothing is claimed of it.
#[verifier::external_body]
pub(crate) fn resizer_scratch_size(resizer: &Resizer) -> usize {
    resizer.size_of_internal_buffers()
}

/// `Resizer::resize` with the default options, which resample the whole
/// source by convolution.
///
/// The destination keeps its size. The call fails only for images of
/// different or unsupported pixel types and for a crop box that leaves the
/// source; both images here are of the type `U8x4` and the crop box is the
/// whole source, so it does not fail. Where the source or the destination has
/// no pixels the destination is left as it was; where both have the same size
/// the source's pixels are copied; otherwise the destination's pixels are
/// what the resampling gives, of which nothing is said here: they may differ
/// from one machine to another.
#[verifier::external_body]
pub(crate) fn resize_image(
    resizer: &mut Resizer,
    source: &Image<'static>,
    target: &mut Image<'static>,
) -> (outcome: Result<(), ResizeError>)
    requires
        image_wf(*source),
        image_wf(*old(target)),
    ensures
        outcome is Ok,
        image_size(*final(target)) == image_size(*old(target)),
        image_bytes(*final(target)).len() == image_bytes(*old(target)).len(),
        image_bytes(*source).len() == 0 || image_bytes(*old(target)).len() == 0 ==> image_bytes(
            *final(target),
        ) == image_bytes(*old(target)),
        image_size(*source) == image_size(*old(target)) ==> image_bytes(*final(target))
            == image_bytes(*source),
{
    resizer.resize(source, target, None)
}

} // verus!
