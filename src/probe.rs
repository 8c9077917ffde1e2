//! Recognising image files by extension and reading their pixel dimensions.
use vstd::prelude::*;

verus! {

#[verifier::external_type_specification]
#[verifier::external_body]
pub struct ExImageFormat(image::ImageFormat);

/// The image format that a file extension names, if any.
pub uninterp spec fn format_of_extension(extension: Seq<char>) -> Option<image::ImageFormat>;

/// The width and height of the image that `contents` encodes in `format`, or
/// `None` where it does not decode.
pub uninterp spec fn decoded_dimensions(contents: Seq<u8>, format: image::ImageFormat) -> Option<(u32, u32)>;

/// Relies on image::ImageFormat::from_extension: the format is a function of
/// the extension alone.
#[verifier::external_body]
fn format_from_extension(extension: &str) -> (r: Option<image::ImageFormat>)
    ensures
        r == format_of_extension(extension@),
{
    image::ImageFormat::from_extension(extension)
}

/// Relies on image::load_from_memory_with_format, and on the decoded image's
/// width and height: the outcome is a function of the bytes and the format.
#[verifier::external_body]
fn decode_dimensions(contents: &[u8], format: image::ImageFormat) -> (r: Option<(u32, u32)>)
    ensures
        r == decoded_dimensions(contents@, format),
{
    match image::load_from_memory_with_format(contents, format) {
        Ok(img) => Some((img.width(), img.height())),
        Err(_) => None,
    }
}

/// The dimensions that a file with this extension and these contents has as
/// an image, `None` where the extension names no image format or the
/// contents do not decode in it.
pub open spec fn probe_spec(extension: Seq<char>, contents: Seq<u8>) -> Option<(u32, u32)> {
    match format_of_extension(extension) {
        Some(format) => decoded_dimensions(contents, format),
        None => None,
    }
}

/// Whether the extension names an image format; files without one are not
/// looked at.
pub fn is_image_extension(extension: &str) -> (r: bool)
    ensures
        r == format_of_extension(extension@) is Some,
{
    format_from_extension(extension).is_some()
}

/// Decodes a file's contents in the format its extension names, and gives
/// the image's width and height.
pub fn get_image_dimension(extension: &str, contents: &[u8]) -> (r: Option<(u32, u32)>)
    ensures
        r == probe_spec(extension@, contents@),
{
    match format_from_extension(extension) {
        Some(format) => decode_dimensions(contents, format),
        None => None,
    }
}

} // verus!
