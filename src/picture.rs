use image::{DynamicImage, ImageError};
use vstd::prelude::*;

verus! {

#[verifier::external_type_specification]
#[verifier::external_body]
pub struct ExDynamicImage(image::DynamicImage);

#[verifier::external_type_specification]
#[verifier::external_body]
pub struct ExImageError(image::ImageError);

/// JPEG quality of a re-encoded picture.
pub const JPEG_QUALITY: u8 = 80;

/// Whether the image crate recognises and decodes `bytes` as a picture.
pub uninterp spec fn decodes(bytes: Seq<u8>) -> bool;

/// Whether `bytes` open with the JPEG start-of-image marker `FF D8`.
pub open spec fn starts_as_jpeg(bytes: Seq<u8>) -> bool {
    bytes.len() >= 2 && bytes[0] == 0xFF && bytes[1] == 0xD8
}

/// Why a picture could not be re-encoded.
#[derive(Debug)]
pub enum PictureError {
    /// The bytes are not a picture in a format the decoder knows.
    Unreadable(ImageError),
    /// The decoded picture could not be written as JPEG.
    Unencodable(ImageError),
}

/// Relies on `image::load_from_memory`: guesses the format from the bytes and
/// decodes them; whether that succeeds depends on the bytes alone.
#[verifier::external_body]
fn decode_image(bytes: &[u8]) -> (r: Result<DynamicImage, ImageError>)
    ensures
        r is Ok <==> decodes(bytes@),
{
    image::load_from_memory(bytes)
}

pub assume_specification[ image::DynamicImage::width ](img: &image::DynamicImage) -> u32;

pub assume_specification[ image::DynamicImage::height ](img: &image::DynamicImage) -> u32;

/// Relies on `image::DynamicImage::resize` with the Lanczos3 filter: the
/// picture scaled to fit `width` x `height`, aspect ratio kept.
#[verifier::external_body]
fn resize_lanczos(img: &DynamicImage, width: u32, height: u32) -> (r: DynamicImage) {
    img.resize(width, height, image::imageops::FilterType::Lanczos3)
}

/// Relies on `image::DynamicImage::write_to` with
/// `ImageOutputFormat::Jpeg(quality)` into an empty buffer: the JPEG
/// encoding of the picture, which the encoder opens with the start-of-image
/// marker, or the encoder's error.
#[verifier::external_body]
fn encode_jpeg(img: &DynamicImage, quality: u8) -> (r: Result<Vec<u8>, ImageError>)
    ensures
        r matches Ok(v) ==> starts_as_jpeg(v@),
{
    let mut buffer: Vec<u8> = Vec::new();
    img.write_to(&mut std::io::Cursor::new(&mut buffer), image::ImageOutputFormat::Jpeg(quality))?;
    Ok(buffer)
}

/// Re-encodes a downloaded picture as a JPEG of quality `JPEG_QUALITY`,
/// resampled at its own size, ready to be uploaded.
pub fn process_image(file: Vec<u8>) -> (r: Result<Vec<u8>, PictureError>)
    ensures
        r matches Err(PictureError::Unreadable(_)) <==> !decodes(file@),
        r matches Ok(v) ==> starts_as_jpeg(v@),
{
    let decoded = decode_image(file.as_slice());
    match decoded {
        Err(e) => Err(PictureError::Unreadable(e)),
        Ok(img) => {
            let resized = resize_lanczos(&img, img.width(), img.height());
            match encode_jpeg(&resized, JPEG_QUALITY) {
                Ok(bytes) => Ok(bytes),
                Err(e) => Err(PictureError::Unencodable(e)),
            }
        },
    }
}

} // verus!
