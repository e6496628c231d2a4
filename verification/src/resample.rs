//! Resampling of RGB frames by the `fast_image_resize` crate.

use vstd::prelude::*;
use std::num::NonZeroU32;
use fast_image_resize::{FilterType, Image, PixelType, ResizeAlg, Resizer};
use crate::frame::{DecodedFrame, FrameView, Resolution};

verus! {

/// The most pixels an image may have for the backend to take it. The backend
/// counts pixels in 32 bits, and three bytes for each of them, with one spare
/// pixel, must fit 32 bits as well.
pub const MAX_BACKEND_PIXELS: u64 = 1_431_655_764;

/// The sizes that the backend can resample from and to: no side is zero, and
/// the source, the destination and the image between the two passes (as wide
/// as the destination, as high as the source) are each within
/// [`MAX_BACKEND_PIXELS`].
pub open spec fn backend_accepts(
    src_width: u32,
    src_height: u32,
    dst_width: u32,
    dst_height: u32,
) -> bool {
    &&& src_width > 0
    &&& src_height > 0
    &&& dst_width > 0
    &&& dst_height > 0
    &&& src_width as int * src_height as int <= MAX_BACKEND_PIXELS
    &&& dst_width as int * dst_height as int <= MAX_BACKEND_PIXELS
    &&& dst_width as int * src_height as int <= MAX_BACKEND_PIXELS
}

/// The bytes that `fast_image_resize` gives for an RGB image of
/// `src_width` by `src_height` pixels resampled to `dst_width` by
/// `dst_height` with its convolution algorithm and the bilinear filter.
pub uninterp spec fn bilinear_resampled(
    src: Seq<u8>,
    src_width: u32,
    src_height: u32,
    dst_width: u32,
    dst_height: u32,
) -> Seq<u8>;

/// Calls `fast_image_resize`: `Image::from_slice_u8` on a copy of `src`,
/// `Image::new` for the destination, and `Resizer::resize` with
/// `ResizeAlg::Convolution(FilterType::Bilinear)`; hands back the
/// destination's bytes.
///
/// Not proved, taken from the crate's source: on the sizes admitted here the
/// calls do not fail; the destination holds three bytes for each of its
/// pixels; the bytes depend on the arguments alone, whichever instruction
/// set the resizer finds on the machine; and where source and destination
/// have the same size the resizer copies the source.
#[verifier::external_body]
fn convolve_bilinear(
    src: &[u8],
    src_width: u32,
    src_height: u32,
    dst_width: u32,
    dst_height: u32,
) -> (out: Option<Vec<u8>>)
    requires
        backend_accepts(src_width, src_height, dst_width, dst_height),
        src@.len() == 3 * (src_width as int * src_height as int),
    ensures
        out is Some,
        out.unwrap()@ == bilinear_resampled(src@, src_width, src_height, dst_width, dst_height),
        out.unwrap()@.len() == 3 * (dst_width as int * dst_height as int),
        src_width == dst_width && src_height == dst_height ==> out.unwrap()@ == src@,
{
    let mut pixels = src.to_vec();
    let (sw, sh) = (NonZeroU32::new(src_width)?, NonZeroU32::new(src_height)?);
    let (dw, dh) = (NonZeroU32::new(dst_width)?, NonZeroU32::new(dst_height)?);
    let src_image = Image::from_slice_u8(sw, sh, &mut pixels, PixelType::U8x3).ok()?;
    let mut dst_image = Image::new(dw, dh, src_image.pixel_type());
    let mut resizer = Resizer::new(ResizeAlg::Convolution(FilterType::Bilinear));
    resizer.resize(&src_image.view(), &mut dst_image.view_mut()).ok()?;
    Some(dst_image.into_vec())
}

/// Whether the backend can resample from `from` to `to`.
pub fn backend_can_resample(from: Resolution, to: Resolution) -> (accepted: bool)
    ensures
        accepted == backend_accepts(from.width, from.height, to.width, to.height),
{
    if from.is_empty() || to.is_empty() {
        return false;
    }
    let between = Resolution { width: to.width, height: from.height };
    from.pixel_count() <= MAX_BACKEND_PIXELS && to.pixel_count() <= MAX_BACKEND_PIXELS
        && between.pixel_count() <= MAX_BACKEND_PIXELS
}

/// What resampling a frame to `target` gives: the backend's bytes, three for
/// each pixel of the target; nothing where the backend cannot take the sizes.
pub open spec fn resampled_rgb(frame: FrameView, target: Resolution) -> Option<Seq<u8>> {
    let rgb = bilinear_resampled(
        frame.data,
        frame.width,
        frame.height,
        target.width,
        target.height,
    );
    if backend_accepts(frame.width, frame.height, target.width, target.height) && rgb.len()
        == target.rgb_len() {
        Some(rgb)
    } else {
        None
    }
}

/// Resamples a frame to `target` with a bilinear convolution. The result has
/// three bytes for each pixel of `target`, in the frame's layout; a frame
/// that already has the target's size comes back unchanged.
pub fn resample_frame(frame: &DecodedFrame, target: Resolution) -> (out: Option<Vec<u8>>)
    ensures
        out is Some <==> backend_accepts(
            frame@.width,
            frame@.height,
            target.width,
            target.height,
        ),
        out matches Some(rgb) ==> Some(rgb@) == resampled_rgb(frame@, target),
        out matches Some(rgb) ==> rgb@.len() == target.rgb_len(),
        out matches Some(rgb) ==> (frame@.resolution() == target ==> rgb@ == frame@.data),
{
    if !backend_can_resample(frame.resolution(), target) {
        return None;
    }
    convolve_bilinear(frame.data(), frame.width(), frame.height(), target.width, target.height)
}

} // verus!
