//! Image formats: PNG for single frames, JPEG for the tiles of a stream.

use jpeg_encoder::{ColorType, Encoder};
use vstd::prelude::*;
use vstd::string::*;

use crate::text;

verus! {

/// The JPEG image of tightly packed BGRA pixels.
pub uninterp spec fn jpeg_image(bgra: Seq<u8>, width: u16, height: u16, quality: u8) -> Seq<u8>;

/// The PNG image of tightly packed RGBA pixels.
pub uninterp spec fn png_image(width: u32, height: u32, rgba: Seq<u8>) -> Seq<u8>;

/// `jpeg_encoder::Encoder::encode` of BGRA pixels into a vector. It fails exactly
/// when the pixels are too few or a dimension is zero; the error is handed on as
/// its `Display` text. Otherwise what it writes is a function of the arguments.
#[verifier::external_body]
pub(crate) fn jpeg_encode(bgra: &[u8], width: u16, height: u16, quality: u8) -> (r: Result<
    Vec<u8>,
    String,
>)
    requires
        width * height * 4 <= usize::MAX,
    ensures
        r is Ok == jpeg_fault(width, height, bgra@.len()) is None,
        r is Ok ==> r->Ok_0@ == jpeg_image(bgra@, width, height, quality),
        r is Err ==> r->Err_0@ == jpeg_fault(width, height, bgra@.len())->0,
{
    let mut out = Vec::new();
    Encoder::new(&mut out, quality)
        .encode(bgra, width, height, ColorType::Bgra)
        .map_err(|error| error.to_string())?;
    Ok(out)
}

/// Why so many bytes are no BGRA image of the given size.
pub open spec fn jpeg_fault(width: u16, height: u16, len: nat) -> Option<Seq<char>> {
    let size = (width * height * 4) as nat;
    if len < size {
        Some(
            "Image data too small for dimensions and color_type: "@ + text::decimal_digits(len)
                + " need at least "@ + text::decimal_digits(size),
        )
    } else if width == 0 || height == 0 {
        Some(
            "Image dimensions must be non zero: "@ + text::decimal_digits(width as nat) + "x"@
                + text::decimal_digits(height as nat),
        )
    } else {
        None
    }
}

/// `png::Encoder` with 8-bit RGBA: `write_header`, then `write_image_data`, into
/// a vector. The header is refused exactly when a dimension is zero, and the data
/// exactly when it has another size than the dimensions say; the error is handed
/// on as its `Display` text, with whether it came from the header. Otherwise what
/// is written is a function of the arguments.
#[verifier::external_body]
pub(crate) fn png_encode(width: u32, height: u32, rgba: &[u8]) -> (r: Result<
    Vec<u8>,
    (bool, String),
>)
    requires
        width * height * 4 <= isize::MAX,
    ensures
        r is Ok == png_fault(width, height, rgba@.len()) is None,
        r is Ok ==> r->Ok_0@ == png_image(width, height, rgba@),
        r is Err ==> (r->Err_0).0 == (png_fault(width, height, rgba@.len())->0).0,
        r is Err ==> (r->Err_0).1@ == (png_fault(width, height, rgba@.len())->0).1,
{
    let mut out = Vec::new();
    let mut encoder = png::Encoder::new(&mut out, width, height);
    encoder.set_color(png::ColorType::Rgba);
    encoder.set_depth(png::BitDepth::Eight);
    let mut writer = encoder.write_header().map_err(|error| (true, error.to_string()))?;
    writer.write_image_data(rgba).map_err(|error| (false, error.to_string()))?;
    drop(writer);
    Ok(out)
}

/// Why so many bytes are no RGBA image of the given size, and whether it is the
/// header that is refused.
pub open spec fn png_fault(width: u32, height: u32, len: nat) -> Option<(bool, Seq<char>)> {
    let size = (width * height * 4) as nat;
    if width == 0 {
        Some((true, "Zero width not allowed"@))
    } else if height == 0 {
        Some((true, "Zero height not allowed"@))
    } else if len != size {
        Some(
            (
                false,
                "wrong data size, expected "@ + text::decimal_digits(size) + " got "@
                    + text::decimal_digits(len),
            ),
        )
    } else {
        None
    }
}

} // verus!
