//! Encoding of camera frames to JPEG.
use vstd::prelude::*;

verus! {

/// Height of the camera frames, in pixels.
pub const IMAGE_HEIGHT: u32 = 854;

/// Width of the camera frames, in pixels.
pub const IMAGE_WIDTH: u32 = 480;

/// Errors of the camera pipeline.
#[derive(Clone, Copy, Debug, PartialEq, Eq)]
pub enum CameraError {
    /// The JPEG encoder failed.
    Encoding,
}

#[verifier::external_type_specification]
#[verifier::external_body]
pub struct ExImageError(image::ImageError);

/// The bytes of the JPEG image (quality 75, baseline, 4:2:2 subsampling) that
/// `image::codecs::jpeg::JpegEncoder` writes for an RGB8 frame of the given dimensions.
pub uninterp spec fn jpeg_encoding(frame: Seq<u8>, width: u32, height: u32) -> Seq<u8>;

/// Calls `image::codecs::jpeg::JpegEncoder::new(out).encode(frame, width, height,
/// ExtendedColorType::Rgb8)`, which appends to `out` the JPEG image of the frame. The encoder
/// panics on a frame whose length is not `width * height * 3`, and fails only on a width or
/// height of 0 or above 65535 (which `requires` leaves out) or when its writer fails, which
/// appending to a `Vec<u8>` does not; so it succeeds on the inputs `requires` admits.
#[verifier::external_body]
fn encode_rgb8_jpeg(out: &mut Vec<u8>, frame: &[u8], width: u32, height: u32) -> (r: Result<(), image::ImageError>)
    requires
        frame.len() == width * height * 3,
        1 <= width <= 65535,
        1 <= height <= 65535,
    ensures
        r is Ok,
        final(out)@ == old(out)@ + jpeg_encoding(frame@, width, height),
{
    let mut encoder = image::codecs::jpeg::JpegEncoder::new(out);
    encoder.encode(frame, width, height, image::ExtendedColorType::Rgb8)
}

/// Appends the JPEG encoding of an RGB8 camera frame of `IMAGE_WIDTH` by `IMAGE_HEIGHT`
/// pixels to `jpeg`; the encoding succeeds on every frame of that size.
pub fn encode_frame(jpeg: &mut Vec<u8>, frame: &[u8]) -> (r: Result<(), CameraError>)
    requires
        frame.len() == IMAGE_WIDTH * IMAGE_HEIGHT * 3,
    ensures
        r is Ok,
        final(jpeg)@ == old(jpeg)@ + jpeg_encoding(frame@, IMAGE_WIDTH, IMAGE_HEIGHT),
{
    match encode_rgb8_jpeg(jpeg, frame, IMAGE_WIDTH, IMAGE_HEIGHT) {
        Ok(()) => Ok(()),
        Err(_) => Err(CameraError::Encoding),
    }
}

} // verus!
