//! Calls into the image-encoding crates: standard Base64 (the `base64`
//! crate) and PNG (the `image` crate).

use vstd::prelude::*;

use base64::Engine;
use image::ImageEncoder;

verus! {

/// The Base64 alphabet of RFC 4648 (`A`-`Z`, `a`-`z`, `0`-`9`, `+`, `/`).
pub open spec fn b64_symbol(v: int) -> u8 {
    if v < 26 {
        (65 + v) as u8
    } else if v < 52 {
        (97 + v - 26) as u8
    } else if v < 62 {
        (48 + v - 52) as u8
    } else if v == 62 {
        43u8
    } else {
        47u8
    }
}

/// Standard Base64 with `=` padding: every group of three bytes becomes four
/// symbols; a final group of one or two bytes is padded to four symbols.
pub open spec fn base64_standard(s: Seq<u8>) -> Seq<u8>
    decreases s.len(),
{
    if s.len() == 0 {
        Seq::empty()
    } else if s.len() == 1 {
        let a = s[0] as int;
        seq![b64_symbol(a / 4), b64_symbol((a % 4) * 16), 61u8, 61u8]
    } else if s.len() == 2 {
        let a = s[0] as int;
        let b = s[1] as int;
        seq![b64_symbol(a / 4), b64_symbol((a % 4) * 16 + b / 16), b64_symbol((b % 16) * 4), 61u8]
    } else {
        let a = s[0] as int;
        let b = s[1] as int;
        let c = s[2] as int;
        seq![
            b64_symbol(a / 4),
            b64_symbol((a % 4) * 16 + b / 16),
            b64_symbol((b % 16) * 4 + c / 64),
            b64_symbol(c % 64),
        ] + base64_standard(s.skip(3))
    }
}

/// `base64::engine::general_purpose::STANDARD.encode`: the standard,
/// padded Base64 text of `input`, as its ASCII bytes.  The crate panics when
/// the encoded length overflows `usize`, which no input of at most
/// `isize::MAX` bytes does.
#[verifier::external_body]
pub(crate) fn base64_encode(input: &[u8]) -> (res: Vec<u8>)
    requires
        input@.len() <= isize::MAX,
    ensures
        res@ == base64_standard(input@),
{
    base64::engine::general_purpose::STANDARD.encode(input).into_bytes()
}

/// The error type of the `image` crate.
#[verifier::external_type_specification]
#[verifier::external_body]
pub struct ExImageError(image::ImageError);

/// The PNG file that `image`'s `PngEncoder` (default compression and filter)
/// writes for an 8-bit RGB image, or `None` when it reports an error.
pub uninterp spec fn png_rgb8_encoding(pixels: Seq<u8>, width: u32, height: u32) -> Option<Seq<u8>>;

/// `image::codecs::png::PngEncoder::write_image` with `ExtendedColorType::Rgb8`
/// into a fresh byte vector: the result is the PNG encoding of the pixels
/// (named by `png_rgb8_encoding`; the encoder is deterministic), or the
/// encoder's error.  The encoder panics unless `pixels` holds exactly three
/// bytes per pixel.  A `Vec<u8>` never holds more than `isize::MAX` bytes.
#[verifier::external_body]
pub(crate) fn encode_png_rgb8(pixels: &[u8], width: u32, height: u32) -> (res: Result<
    Vec<u8>,
    image::ImageError,
>)
    requires
        pixels@.len() == width as int * height as int * 3,
    ensures
        match res {
            Ok(bytes) => png_rgb8_encoding(pixels@, width, height) == Some(bytes@) && bytes@.len()
                <= isize::MAX,
            Err(_) => png_rgb8_encoding(pixels@, width, height) is None,
        },
{
    let mut bytes: Vec<u8> = Vec::new();
    let encoder = image::codecs::png::PngEncoder::new(&mut bytes);
    match encoder.write_image(pixels, width, height, image::ExtendedColorType::Rgb8) {
        Ok(()) => Ok(bytes),
        Err(err) => Err(err),
    }
}

} // verus!
