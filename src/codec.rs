//! Conversion between raw RGBA pixels, PNG bytes and unpadded base64 text.

use vstd::prelude::*;

use base64::Engine;
use image::ImageEncoder;

use crate::Error;

verus! {

/// A raster image as 8-bit RGBA samples, row by row.
#[derive(Debug, Clone, PartialEq, Eq)]
pub struct RawImage {
    pub width: u32,
    pub height: u32,
    pub pixels: Vec<u8>,
}

/// The number of bytes that `width * height` RGBA pixels take.
pub open spec fn rgba_len(width: u32, height: u32) -> int {
    width as int * height as int * 4
}

impl RawImage {
    /// The pixel buffer matches the declared dimensions.
    pub open spec fn is_consistent(&self) -> bool {
        self.pixels@.len() == rgba_len(self.width, self.height)
    }

    /// The image as width, height and pixel bytes.
    pub open spec fn view_parts(&self) -> (u32, u32, Seq<u8>) {
        (self.width, self.height, self.pixels@)
    }
}

/// The PNG file that the image crate writes for the given RGBA pixels, or `None`
/// where its encoder refuses them.
pub uninterp spec fn png_of(width: u32, height: u32, pixels: Seq<u8>) -> Option<Seq<u8>>;

/// The image that the image crate reads from the given bytes, as width, height
/// and RGBA pixels, or `None` where it cannot read them.
pub uninterp spec fn rgba_of(bytes: Seq<u8>) -> Option<(u32, u32, Seq<u8>)>;

/// The unpadded standard base64 text of the given bytes.
pub uninterp spec fn base64_of(bytes: Seq<u8>) -> Seq<char>;

/// The bytes that unpadded standard base64 text encodes, or `None` where the
/// text is not in that form.
pub uninterp spec fn base64_decoded(text: Seq<char>) -> Option<Seq<u8>>;

/// Images with at most this many pixel bytes stay within the decoder's default
/// memory limit of 512 MiB when read back: 128 MiB, a quarter of it, as the PNG
/// decoder reserves the image's size against that limit more than once.
pub const READ_BACK_LIMIT: usize = 134217728;

/// Relies on image's `PngEncoder::write_image` for 8-bit RGBA: it writes a PNG
/// that is a function of the pixels, and which `load_from_memory` reads back as
/// the same pixels while the decoder's default memory limit of 512 MiB is not
/// reached. It asserts the buffer length, which `requires` ensures.
#[verifier::external_body]
fn png_encode(width: u32, height: u32, pixels: &Vec<u8>) -> (r: Result<Vec<u8>, image::ImageError>)
    requires
        pixels@.len() == rgba_len(width, height),
    ensures
        r matches Ok(b) ==> png_of(width, height, pixels@) == Some(b@),
        r is Err ==> png_of(width, height, pixels@) is None,
        r matches Ok(b) ==> (pixels@.len() <= READ_BACK_LIMIT ==> rgba_of(b@) == Some(
            (width, height, pixels@),
        )),
{
    let mut out: Vec<u8> = Vec::new();
    image::codecs::png::PngEncoder::new(&mut out).write_image(
        pixels.as_slice(),
        width,
        height,
        image::ColorType::Rgba8,
    )?;
    Ok(out)
}

/// Relies on image's `load_from_memory`, which guesses the format and reads the
/// image, and on `DynamicImage::to_rgba8`, which expands any channel layout to
/// 8-bit RGBA: four bytes for each pixel.
#[verifier::external_body]
fn load_rgba(bytes: &Vec<u8>) -> (r: Result<(u32, u32, Vec<u8>), image::ImageError>)
    ensures
        r matches Ok(t) ==> rgba_of(bytes@) == Some((t.0, t.1, t.2@)),
        r matches Ok(t) ==> t.2@.len() == rgba_len(t.0, t.1),
        r is Err ==> rgba_of(bytes@) is None,
{
    let img = image::load_from_memory(bytes.as_slice())?.to_rgba8();
    Ok((img.width(), img.height(), img.into_raw()))
}

/// Relies on base64's `STANDARD_NO_PAD.encode`: the unpadded standard base64
/// text of the bytes, which `STANDARD_NO_PAD.decode` turns back into them.
#[verifier::external_body]
fn base64_encode(bytes: &Vec<u8>) -> (r: String)
    ensures
        r@ == base64_of(bytes@),
        base64_decoded(r@) == Some(bytes@),
{
    base64::engine::general_purpose::STANDARD_NO_PAD.encode(bytes)
}

/// Relies on base64's `STANDARD_NO_PAD.decode`: the bytes that the text encodes,
/// or an error where it is not unpadded standard base64.
#[verifier::external_body]
fn base64_decode(text: &str) -> (r: Result<Vec<u8>, base64::DecodeError>)
    ensures
        r matches Ok(b) ==> base64_decoded(text@) == Some(b@),
        r is Err ==> base64_decoded(text@) is None,
{
    base64::engine::general_purpose::STANDARD_NO_PAD.decode(text)
}

/// The number of bytes that `width * height` RGBA pixels take, computed without
/// overflow.
fn rgba_len_exec(width: u32, height: u32) -> (r: u128)
    ensures
        r as int == rgba_len(width, height),
{
    proof {
        assert(width as int * height as int <= 0xffff_ffff * 0xffff_ffff) by (nonlinear_arith)
            requires
                width as int <= 0xffff_ffff,
                height as int <= 0xffff_ffff,
        ;
    }
    let area: u128 = width as u128 * height as u128;
    area * 4
}

/// The PNG bytes that `encode_binary` yields for an image, if it succeeds.
pub open spec fn encode_binary_spec(width: u32, height: u32, pixels: Seq<u8>) -> Option<Seq<u8>> {
    if pixels.len() != rgba_len(width, height) {
        None
    } else {
        png_of(width, height, pixels)
    }
}

/// The text that `encode` yields for an image, if it succeeds.
pub open spec fn encode_spec(width: u32, height: u32, pixels: Seq<u8>) -> Option<Seq<char>> {
    match encode_binary_spec(width, height, pixels) {
        Some(b) => Some(base64_of(b)),
        None => None,
    }
}

/// The image that `decode` yields for a text, if it succeeds.
pub open spec fn decode_spec(text: Seq<char>) -> Option<(u32, u32, Seq<u8>)> {
    match base64_decoded(text) {
        Some(b) => rgba_of(b),
        None => None,
    }
}

/// Serializes the image as PNG bytes.
///
/// Fails with `DimensionMismatch` exactly when the buffer length is not
/// `width * height * 4`, and otherwise with `Encode` when the encoder refuses
/// the image. The bytes read back as the same image within the decoder's memory
/// limit.
pub fn encode_binary(img: &RawImage) -> (r: Result<Vec<u8>, Error>)
    ensures
        !img.is_consistent() ==> r == Err::<Vec<u8>, Error>(
            Error::DimensionMismatch {
                width: img.width,
                height: img.height,
                len: img.pixels@.len() as usize,
            },
        ),
        img.is_consistent() ==> (r is Ok <==> png_of(img.width, img.height, img.pixels@) is Some),
        img.is_consistent() ==> (r is Err ==> r matches Err(Error::Encode(_))),
        r matches Ok(b) ==> encode_binary_spec(img.width, img.height, img.pixels@) == Some(b@),
        r matches Ok(b) ==> (img.pixels@.len() <= READ_BACK_LIMIT ==> rgba_of(b@) == Some(
            img.view_parts(),
        )),
{
    let expected: u128 = rgba_len_exec(img.width, img.height);
    if img.pixels.len() as u128 != expected {
        return Err(
            Error::DimensionMismatch {
                width: img.width,
                height: img.height,
                len: img.pixels.len(),
            },
        );
    }
    match png_encode(img.width, img.height, &img.pixels) {
        Ok(b) => Ok(b),
        Err(e) => Err(Error::Encode(e)),
    }
}

/// Serializes the image as PNG and returns the PNG's unpadded base64 text.
///
/// Fails as `encode_binary` does. Within the decoder's memory limit, `decode`
/// turns the text back into the same width, height and pixels.
pub fn encode(img: &RawImage) -> (r: Result<String, Error>)
    ensures
        !img.is_consistent() ==> r == Err::<String, Error>(
            Error::DimensionMismatch {
                width: img.width,
                height: img.height,
                len: img.pixels@.len() as usize,
            },
        ),
        img.is_consistent() ==> (r is Ok <==> png_of(img.width, img.height, img.pixels@) is Some),
        img.is_consistent() ==> (r is Err ==> r matches Err(Error::Encode(_))),
        r matches Ok(s) ==> encode_spec(img.width, img.height, img.pixels@) == Some(s@),
        r matches Ok(s) ==> (img.pixels@.len() <= READ_BACK_LIMIT ==> decode_spec(s@) == Some(
            img.view_parts(),
        )),
{
    let bytes = encode_binary(img)?;
    let text = base64_encode(&bytes);
    Ok(text)
}

/// Reads an image from unpadded standard base64 text, in any format that can be
/// read, and expands its pixels to 8-bit RGBA.
///
/// Fails with `Base64` exactly when the text is not unpadded standard base64,
/// and otherwise with `Decode` exactly when the bytes are not a readable image.
pub fn decode(text: &str) -> (r: Result<RawImage, Error>)
    ensures
        base64_decoded(text@) is None <==> r matches Err(Error::Base64(_)),
        base64_decoded(text@) is Some ==> (decode_spec(text@) is None <==> r matches Err(
            Error::Decode(_),
        )),
        r is Ok <==> decode_spec(text@) is Some,
        r matches Ok(img) ==> decode_spec(text@) == Some(img.view_parts()) && img.is_consistent(),
{
    let bytes = match base64_decode(text) {
        Ok(b) => b,
        Err(e) => return Err(Error::Base64(e)),
    };
    match load_rgba(&bytes) {
        Ok((width, height, pixels)) => Ok(RawImage { width, height, pixels }),
        Err(e) => Err(Error::Decode(e)),
    }
}

} // verus!
