//! Conversion of a captured buffer into an image container.  The container
//! types come from the `image` crate and are opaque here; the trusted
//! wrappers below state only what that crate's sources show.

use vstd::prelude::*;

verus! {

#[verifier::external_type_specification]
#[verifier::external_body]
pub struct ExDynamicImage(image::DynamicImage);

#[verifier::external_type_specification]
#[verifier::external_body]
pub struct ExColorType(image::ColorType);

/// Relies on image::ImageBuffer::from_raw: construction succeeds exactly
/// when the container holds at least width * height * 4 bytes.
#[verifier::external_body]
pub(crate) fn rgba_image_from_raw(width: u32, height: u32, data: Vec<u8>) -> (r: Option<
    image::DynamicImage,
>)
    ensures
        r.is_some() <==> width * height * 4 <= data@.len(),
{
    image::RgbaImage::from_raw(width, height, data).map(image::DynamicImage::ImageRgba8)
}

/// Relies on image::ColorType::Rgba8: the four-channel, eight-bit layout,
/// matching the buffers every backend produces.
#[verifier::external_body]
pub(crate) fn rgba_color_type() -> image::ColorType {
    image::ColorType::Rgba8
}

} // verus!
