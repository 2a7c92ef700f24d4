//! Encodings computed by other crates. Each function here hands its
//! arguments to an outside crate; its contract is believed, not proved.

use vstd::prelude::*;
use vstd::utf8::encode_utf8;
use base64::Engine;

verus! {

/// The bytes that a query string takes as they are: ASCII letters and
/// digits, `-`, `.`, `_` and `~`.
pub open spec fn unreserved(b: u8) -> bool {
    (0x30 <= b <= 0x39) || (0x41 <= b <= 0x5a) || (0x61 <= b <= 0x7a) || b == 0x2d || b == 0x2e
        || b == 0x5f || b == 0x7e
}

/// The hexadecimal digit `d` as a character, in upper case.
pub open spec fn upper_hex_digit(d: nat) -> char
    recommends
        d < 16,
{
    if d < 10 {
        ((48 + d) as u8) as char
    } else {
        ((55 + d) as u8) as char
    }
}

/// One byte in a query string: itself, or `%` and its two hexadecimal
/// digits.
pub open spec fn percent_byte(b: u8) -> Seq<char> {
    if unreserved(b) {
        seq![b as char]
    } else {
        seq!['%', upper_hex_digit((b / 16) as nat), upper_hex_digit((b % 16) as nat)]
    }
}

/// A byte string in a query string, byte by byte.
pub open spec fn percent_bytes(bytes: Seq<u8>) -> Seq<char>
    decreases bytes.len(),
{
    if bytes.len() == 0 {
        Seq::empty()
    } else {
        percent_bytes(bytes.drop_last()) + percent_byte(bytes.last())
    }
}

/// The percent-encoding of a text: that of its UTF-8 bytes.
pub open spec fn percent_encoded(text: Seq<char>) -> Seq<char> {
    percent_bytes(encode_utf8(text))
}

/// Percent-encodes a text for a query string, by `urlencoding::encode`,
/// which encodes every byte of the text's UTF-8 form but ASCII letters,
/// digits, `-`, `.`, `_` and `~`, with upper-case hexadecimal digits.
#[verifier::external_body]
pub(crate) fn url_encode(text: &str) -> (r: String)
    ensures
        r@ == percent_encoded(text@),
{
    urlencoding::encode(text).into_owned()
}

/// The MD5 digest of a byte string, as `md5::compute` produces it.
pub uninterp spec fn md5_digest(data: Seq<u8>) -> Seq<u8>;

/// Digests a byte string by `md5::compute` and hands out the bytes of the
/// digest. The result is named by [`md5_digest`]; it depends on the data
/// alone.
#[verifier::external_body]
pub(crate) fn md5_compute(data: &[u8]) -> (r: Vec<u8>)
    ensures
        r@ == md5_digest(data@),
{
    md5::compute(data).0.to_vec()
}

/// A random number, by `rand::random`. Nothing is known of it.
#[verifier::external_body]
pub(crate) fn random_u32() -> u32 {
    rand::random()
}

/// The base64 text of a byte string in the standard alphabet with padding,
/// as `base64`'s `STANDARD` engine produces it.
pub uninterp spec fn base64_standard(bytes: Seq<u8>) -> Seq<char>;

/// The length of the standard base64 text of `n` bytes.
pub open spec fn base64_len(n: int) -> int {
    (n + 2) / 3 * 4
}

/// Encodes bytes as base64 by `Engine::encode` of the `STANDARD` engine.
/// That function panics when the length of its result does not fit a
/// `usize`, so the input is bounded. The result is named by
/// [`base64_standard`].
#[verifier::external_body]
pub(crate) fn base64_encode(bytes: &[u8]) -> (r: String)
    requires
        base64_len(bytes@.len() as int) <= usize::MAX,
    ensures
        r@ == base64_standard(bytes@),
{
    base64::engine::general_purpose::STANDARD.encode(bytes)
}

/// The error type of the `image` crate's encoders.
#[verifier::external_type_specification]
#[verifier::external_body]
pub struct ExImageError(image::ImageError);

/// The JPEG file that the `image` crate's encoder writes for an 8-bit RGB
/// image at a quality setting, or `None` where it refuses the image.
pub uninterp spec fn jpeg_encoding(rgb: Seq<u8>, width: u32, height: u32, quality: u8) -> Option<
    Seq<u8>,
>;

/// Encodes an 8-bit RGB image as JPEG, by `JpegEncoder::new_with_quality`
/// and `JpegEncoder::encode` into a fresh vector. `encode` panics unless
/// the buffer holds three bytes for each pixel, so that is required. The
/// outcome is named by [`jpeg_encoding`].
#[verifier::external_body]
pub(crate) fn jpeg_encode(rgb: &[u8], width: u32, height: u32, quality: u8) -> (r: Result<
    Vec<u8>,
    image::ImageError,
>)
    requires
        rgb@.len() == width as int * height as int * 3,
    ensures
        match r {
            Ok(bytes) => jpeg_encoding(rgb@, width, height, quality) == Some(bytes@),
            Err(_) => jpeg_encoding(rgb@, width, height, quality) is None,
        },
{
    let mut out: Vec<u8> = Vec::new();
    image::codecs::jpeg::JpegEncoder::new_with_quality(&mut out, quality).encode(
        rgb,
        width,
        height,
        image::ExtendedColorType::Rgb8,
    )?;
    Ok(out)
}

/// The PNG file that the `image` crate's encoder writes for an 8-bit RGBA
/// image, or `None` where it refuses the image.
pub uninterp spec fn png_encoding(rgba: Seq<u8>, width: u32, height: u32) -> Option<Seq<u8>>;

/// Encodes an 8-bit RGBA image as PNG, by `PngEncoder::new` and
/// `ImageEncoder::write_image` into a fresh vector. `write_image` panics
/// unless the buffer holds four bytes for each pixel, so that is required.
/// The outcome is named by [`png_encoding`].
#[verifier::external_body]
pub(crate) fn png_encode(rgba: &[u8], width: u32, height: u32) -> (r: Result<
    Vec<u8>,
    image::ImageError,
>)
    requires
        rgba@.len() == width as int * height as int * 4,
    ensures
        match r {
            Ok(bytes) => png_encoding(rgba@, width, height) == Some(bytes@),
            Err(_) => png_encoding(rgba@, width, height) is None,
        },
{
    let mut out: Vec<u8> = Vec::new();
    image::ImageEncoder::write_image(
        image::codecs::png::PngEncoder::new(&mut out),
        rgba,
        width,
        height,
        image::ExtendedColorType::Rgba8,
    )?;
    Ok(out)
}

/// The message of an encoder error, by its `Display`. Nothing is claimed of
/// the text.
#[verifier::external_body]
pub(crate) fn image_error_text(e: &image::ImageError) -> String {
    format!("{}", e)
}

} // verus!
