//! Raw RGBA8 pixel data and the image buffers it is exchanged with.

use vstd::prelude::*;
use crate::error::BlurError;

verus! {

/// An RGBA8 image, held in the `image` crate's `RgbaImage`.  The verifier
/// does not look inside: all it knows of a picture is what the three
/// functions below state in terms of `picture_bytes` and `picture_size`.
#[verifier::external_body]
pub struct Picture {
    buffer: image::RgbaImage,
}

/// The raw bytes of a picture, row by row, four to a pixel: the buffer
/// that the image was made around and that `into_raw` hands out.
pub uninterp spec fn picture_bytes(picture: Picture) -> Seq<u8>;

/// The width and the height of a picture, in pixels: what the image was
/// made with and what `dimensions` returns.
pub uninterp spec fn picture_size(picture: Picture) -> (u32, u32);

/// When `width`, `height` and a buffer of `len` bytes make a picture: four
/// bytes for each pixel must be there, and that number must be one that the
/// machine can count.
pub open spec fn fits_picture(width: u32, height: u32, len: nat) -> bool {
    &&& 4 * width <= usize::MAX
    &&& 4 * width * height <= usize::MAX
    &&& 4 * width * height <= len
}

/// `image::ImageBuffer::from_raw` for `Rgba<u8>` pixels in a `Vec<u8>`.  It
/// multiplies 4, `width` and `height` with `checked_mul` in `usize` and
/// returns `None` if a product overflows or exceeds the buffer's length;
/// otherwise it returns an image of that size around the buffer, unchanged.
#[verifier::external_body]
fn picture_from_raw(width: u32, height: u32, bytes: Vec<u8>) -> (made: Option<Picture>)
    ensures
        made is Some <==> fits_picture(width, height, bytes@.len()),
        made is Some ==> picture_bytes(made->0) == bytes@ && picture_size(made->0) == (
            width,
            height,
        ),
{
    match image::RgbaImage::from_raw(width, height, bytes) {
        Some(buffer) => Some(Picture { buffer }),
        None => None,
    }
}

/// `image::ImageBuffer::dimensions`: the width and height that the image was
/// made with.
#[verifier::external_body]
fn picture_dimensions(picture: &Picture) -> (size: (u32, u32))
    ensures
        size == picture_size(*picture),
{
    picture.buffer.dimensions()
}

/// `image::ImageBuffer::into_raw`: hands out the buffer that the image holds.
#[verifier::external_body]
fn picture_into_raw(picture: Picture) -> (bytes: Vec<u8>)
    ensures
        bytes@ == picture_bytes(picture),
{
    picture.buffer.into_raw()
}

impl Picture {
    /// The picture's width in pixels.
    pub open spec fn spec_width(self) -> u32 {
        picture_size(self).0
    }

    /// The picture's height in pixels.
    pub open spec fn spec_height(self) -> u32 {
        picture_size(self).1
    }

    /// Makes a picture of `width` by `height` pixels from raw bytes.  The
    /// buffer may be longer than the pixels need, not shorter.
    pub fn new(width: u32, height: u32, bytes: Vec<u8>) -> (made: Result<Picture, BlurError>)
        ensures
            made is Ok <==> fits_picture(width, height, bytes@.len()),
            made is Ok ==> picture_bytes(made->Ok_0) == bytes@ && made->Ok_0.spec_width()
                == width && made->Ok_0.spec_height() == height,
            made is Err ==> made->Err_0 == BlurError::InvalidImageBuffer,
    {
        match picture_from_raw(width, height, bytes) {
            Some(picture) => Ok(picture),
            None => Err(BlurError::InvalidImageBuffer),
        }
    }

    /// Width and height, in this order.
    pub fn dimensions(&self) -> (size: (u32, u32))
        ensures
            size.0 == self.spec_width(),
            size.1 == self.spec_height(),
    {
        picture_dimensions(self)
    }

    /// Takes the picture apart into width, height and raw bytes.
    pub fn into_parts(self) -> (parts: (u32, u32, Vec<u8>))
        ensures
            parts.0 == self.spec_width(),
            parts.1 == self.spec_height(),
            parts.2@ == picture_bytes(self),
    {
        let size = picture_dimensions(&self);
        let bytes = picture_into_raw(self);
        (size.0, size.1, bytes)
    }
}

} // verus!
