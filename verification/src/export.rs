//! The export boundary: hand a finished interchange buffer to the `image`
//! crate, which owns encoding and everything downstream of it.

use vstd::prelude::*;

use crate::capture::lemma_rect_arith;
use crate::capture::InterchangeImage;

verus! {

/// The `image` crate's RGB pixel buffer, carried opaquely: the library only
/// builds it and hands it on, and unverified code takes the contained value
/// to an encoder.
#[verifier::external_body]
pub struct RgbExportImage {
    pub inner: image::RgbImage,
}

/// Relies on image::ImageBuffer::from_raw for `RgbImage`: it succeeds exactly
/// when the container holds at least three bytes (one per channel) for every
/// pixel of a `width` by `height` image, and then takes the container as the
/// image's backing row-major RGB data.
#[verifier::external_body]
fn rgb_image_from_raw(width: u32, height: u32, data: Vec<u8>) -> (r: Option<RgbExportImage>)
    ensures
        r is Some <==> data@.len() >= 3 * width * height,
{
    match image::RgbImage::from_raw(width, height, data) {
        Some(img) => Some(RgbExportImage { inner: img }),
        None => None,
    }
}

impl InterchangeImage {
    /// Moves this buffer into the `image` crate's RGB container, the step
    /// from which encoders take over. A well-formed buffer is always big
    /// enough, so this always succeeds.
    pub fn into_rgb_image(self) -> (r: Option<RgbExportImage>)
        requires
            self.wf(),
        ensures
            r is Some,
    {
        proof {
            lemma_rect_arith(self.spec_width() as int, self.spec_height() as int);
        }
        let width = self.width();
        let height = self.height();
        rgb_image_from_raw(width, height, self.into_bytes())
    }
}

} // verus!
