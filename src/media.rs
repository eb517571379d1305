//! Facts about uploaded images.

use vstd::prelude::*;

verus! {

#[verifier::external_type_specification]
#[verifier::external_body]
pub struct ExImageError(image::ImageError);

/// The width and height of the image that `image` decodes from the bytes,
/// if it decodes one.
pub uninterp spec fn image_size(bytes: Seq<u8>) -> Option<(u32, u32)>;

/// Relies on `image::load_from_memory` with `width` and `height`: decoding
/// depends on the bytes alone.
#[verifier::external_body]
fn decode_dimensions(bytes: &[u8]) -> (r: Result<(u32, u32), image::ImageError>)
    ensures
        match r {
            Ok(d) => image_size(bytes@) == Some(d),
            Err(_) => image_size(bytes@) is None,
        },
{
    match image::load_from_memory(bytes) {
        Ok(img) => Ok((img.width(), img.height())),
        Err(e) => Err(e),
    }
}

/// The width and height of an encoded image.
pub fn get_dimensions(image_data: &[u8]) -> (r: Result<(u32, u32), image::ImageError>)
    ensures
        match r {
            Ok(d) => image_size(image_data@) == Some(d),
            Err(_) => image_size(image_data@) is None,
        },
{
    decode_dimensions(image_data)
}

} // verus!
