//! Decoding through the image-codec dependency and AVIF encoding.
//!
//! The codec library is a dependency boundary: format sniffing, pixel
//! decoding and AVIF bitstream encoding are its work, reached through the
//! trusted declarations below. Everything around the calls - validation of
//! the decoded payload, normalization, parameter checking - is verified.

use vstd::prelude::*;
use crate::error::ConvertError;
use crate::image_data::DecodedImage;
use crate::image_data::PixelData;
use crate::image_data::PixelData::{Gray16, Gray8, GrayAlpha16, GrayAlpha8};
use crate::image_data::PixelData::{Rgb16, Rgb8, Rgba16, Rgba8};
use crate::normalize::normalize;
use image::DynamicImage::{ImageLuma16, ImageLuma8, ImageLumaA16, ImageLumaA8};
use image::DynamicImage::{ImageRgb16, ImageRgb8, ImageRgba16, ImageRgba8};

verus! {

#[verifier::external_type_specification]
#[verifier::external_body]
pub struct ExImageError(image::ImageError);

/// The decoded image a byte stream holds: `Some` exactly when the codec
/// library recognizes the container format, finds the content well formed,
/// and the pixel representation is one of the supported (integer-channel)
/// variants; `None` otherwise. Decoding an in-memory buffer is a function of
/// the bytes alone.
pub uninterp spec fn decoded_of(bytes: Seq<u8>) -> Option<DecodedImage>;

/// The AVIF byte stream the encoder produces for a canonical RGBA buffer and
/// the two tuning knobs. The wrapper below pins the encoder to one thread,
/// so the encoding is a function of these inputs alone: the encoder embeds
/// no timestamp and, once its tile count no longer follows the machine's
/// thread pool, draws on no other state.
pub uninterp spec fn avif_bytes(
    pixels: Seq<u8>,
    width: u32,
    height: u32,
    speed: u8,
    quality: u8,
) -> Seq<u8>;

/// The leading bytes every AVIF container starts with: a four-byte box size,
/// the box type `ftyp`, and the major brand `avif`.
pub open spec fn is_avif_signature(s: Seq<u8>) -> bool {
    s.len() >= 12 && s.subrange(4, 12) == seq![
        0x66u8,
        0x74u8,
        0x79u8,
        0x70u8,
        0x61u8,
        0x76u8,
        0x69u8,
        0x66u8,
    ]
}

/// Whether the AVIF encoder accepts a canonical RGBA buffer and the two
/// tuning knobs, for inputs within the wrapper's stated bounds. With the
/// thread count pinned, acceptance too is a function of these inputs alone.
pub uninterp spec fn avif_accepts(
    pixels: Seq<u8>,
    width: u32,
    height: u32,
    speed: u8,
    quality: u8,
) -> bool;

/// Relies on image::load_from_memory to sniff and decode the byte stream,
/// and on the DynamicImage variants to hand the raw samples out. Decoding
/// from memory is deterministic in the bytes, which the name `decoded_of`
/// states. The well-formedness of the handed-back image relies on the decoder
/// allocating each buffer at exactly width x height x channels entries
/// (decoder_to_vec, ImageBuffer::from_raw).
#[verifier::external_body]
fn decode_bytes(bytes: &Vec<u8>) -> (r: Result<Option<DecodedImage>, image::ImageError>)
    ensures
        r matches Ok(o) ==> o == decoded_of(bytes@) && (o matches Some(img) ==> img.wf()),
        r is Err ==> decoded_of(bytes@) is None,
{
    let img = image::load_from_memory(bytes)?;
    let (width, height) = (img.width(), img.height());
    let data = match img {
        ImageLuma8(b) => Gray8(b.into_raw()),
        ImageLumaA8(b) => GrayAlpha8(b.into_raw()),
        ImageRgb8(b) => Rgb8(b.into_raw()),
        ImageRgba8(b) => Rgba8(b.into_raw()),
        ImageLuma16(b) => Gray16(b.into_raw()),
        ImageLumaA16(b) => GrayAlpha16(b.into_raw()),
        ImageRgb16(b) => Rgb16(b.into_raw()),
        ImageRgba16(b) => Rgba16(b.into_raw()),
        _ => return Ok(None),
    };
    Ok(Some(DecodedImage { width, height, data }))
}

/// Relies on the Display impl of image::ImageError for the error's text.
#[verifier::external_body]
fn image_error_text(e: &image::ImageError) -> (r: String)
{
    format!("{e}")
}

/// Relies on image::codecs::avif::AvifEncoder::new_with_speed_quality,
/// AvifEncoder::with_num_threads and ImageEncoder::write_image: encodes an
/// RGBA8 buffer of exactly width x height x 4 bytes into an AVIF byte
/// stream. The encoder panics on a buffer of any other length and on speed
/// or quality of 0, hence the bounds asked of the caller; it clamps speed
/// above 10 and quality above 100, so within the stated ranges the knobs are
/// passed through unmodified. The thread count is pinned to one because the
/// encoder otherwise derives its tile count - part of the emitted bitstream -
/// from the ambient thread pool; pinned, both the output bytes and acceptance
/// are functions of the arguments alone, which the names `avif_bytes` and
/// `avif_accepts` state. The container signature relies on avif_serialize,
/// which opens every file it writes with an `ftyp` box of major brand `avif`.
#[verifier::external_body]
fn encode_rgba8_avif(
    pixels: &Vec<u8>,
    width: u32,
    height: u32,
    speed: u8,
    quality: u8,
) -> (r: Result<Vec<u8>, image::ImageError>)
    requires
        pixels@.len() == 4 * (width as int) * (height as int),
        1 <= speed <= 10,
        1 <= quality <= 100,
    ensures
        (r is Ok) == avif_accepts(pixels@, width, height, speed, quality),
        r matches Ok(out) ==> out@ == avif_bytes(pixels@, width, height, speed, quality)
            && is_avif_signature(avif_bytes(pixels@, width, height, speed, quality)),
{
    let mut out: Vec<u8> = Vec::new();
    let encoder = image::codecs::avif::AvifEncoder::new_with_speed_quality(
        &mut out, speed, quality,
    )
    .with_num_threads(Some(1));
    image::ImageEncoder::write_image(
        encoder, pixels, width, height, image::ExtendedColorType::Rgba8,
    )?;
    Ok(out)
}

/// Sniffs and decodes an in-memory byte stream into a decoded image whose
/// payload is checked against its dimensions.
///
/// Succeeds exactly when the byte stream decodes to a supported
/// representation; it fails with a decode error when the codec library
/// recognizes no format, finds the content malformed, or hands back a
/// representation outside the supported set (floating-point channels).
pub fn decode(bytes: &Vec<u8>) -> (r: Result<DecodedImage, ConvertError>)
    ensures
        (r is Ok) == (decoded_of(bytes@) is Some),
        r matches Ok(img) ==> img.wf() && decoded_of(bytes@) == Some(img),
        r is Err ==> r->Err_0 is Decode,
{
    match decode_bytes(bytes) {
        // The decoder fills each buffer to exactly the declared dimensions;
        // the verified re-check turns any breach of that assumption into an
        // error instead of undefined downstream behavior.
        Ok(Some(img)) => img.validated(),
        Ok(None) => Err(ConvertError::Decode(String::from_str(
            "unsupported color representation",
        ))),
        Err(e) => Err(ConvertError::Decode(image_error_text(&e))),
    }
}

/// Encodes a canonical RGBA buffer as an AVIF byte stream.
///
/// The buffer must be exactly width x height x 4 bytes, the dimensions must
/// be positive, and the knobs must lie in their ranges (speed 1-10, quality
/// 1-100); any violation is reported as an encode error, as is a rejection by
/// the encoder itself. On those inputs where nothing is violated, the call
/// succeeds exactly when the encoder accepts, and the result is exactly the
/// encoder's output for these inputs.
pub fn encode_avif(
    pixels: &Vec<u8>,
    width: u32,
    height: u32,
    speed: u8,
    quality: u8,
) -> (r: Result<Vec<u8>, ConvertError>)
    ensures
        r matches Ok(out) ==> out@ == avif_bytes(pixels@, width, height, speed, quality)
            && is_avif_signature(out@),
        width == 0 || height == 0 ==> r is Err,
        speed == 0 || speed > 10 || quality == 0 || quality > 100 ==> r is Err,
        pixels@.len() != 4 * (width as int) * (height as int) ==> r is Err,
        (width > 0 && height > 0 && 1 <= speed <= 10 && 1 <= quality <= 100
            && pixels@.len() == 4 * (width as int) * (height as int))
            ==> ((r is Ok) == avif_accepts(pixels@, width, height, speed, quality)),
        r is Err ==> r->Err_0 is Encode,
{
    if width == 0 || height == 0 {
        return Err(ConvertError::Encode(String::from_str(
            "zero-area image cannot be encoded",
        )));
    }
    if speed < 1 || speed > 10 {
        return Err(ConvertError::Encode(String::from_str(
            "speed must lie between 1 and 10",
        )));
    }
    if quality < 1 || quality > 100 {
        return Err(ConvertError::Encode(String::from_str(
            "quality must lie between 1 and 100",
        )));
    }
    proof {
        crate::image_data::lemma_area_fits(width, height);
        vstd::arithmetic::mul::lemma_mul_is_associative(4, width as int, height as int);
    }
    if pixels.len() as u128 != 4 * ((width as u128) * (height as u128)) {
        return Err(ConvertError::Encode(String::from_str(
            "pixel buffer does not match the image dimensions",
        )));
    }
    match encode_rgba8_avif(pixels, width, height, speed, quality) {
        Ok(out) => Ok(out),
        Err(e) => Err(ConvertError::Encode(image_error_text(&e))),
    }
}

/// When the whole pipeline succeeds: the input decodes to a supported image,
/// that image is small enough to normalize, has a positive area, the knobs
/// lie in their ranges, and the encoder accepts the canonical buffer.
pub open spec fn convert_succeeds(input: Seq<u8>, speed: u8, quality: u8) -> bool {
    match decoded_of(input) {
        Some(img) => 4 * img.pixel_count() <= usize::MAX as int
            && img.width > 0 && img.height > 0
            && 1 <= speed <= 10 && 1 <= quality <= 100
            && avif_accepts(img.canonical(), img.width, img.height, speed, quality),
        None => false,
    }
}

/// The whole pipeline on in-memory bytes: sniff and decode the input,
/// normalize it to the canonical RGBA buffer, and encode that buffer as AVIF.
///
/// Succeeds exactly under `convert_succeeds`; on success the output is
/// exactly the AVIF encoding of the canonical form of the image the input
/// decodes to, at the given knobs. Every failure is a decode or an encode
/// error, never silence.
pub fn convert(input: &Vec<u8>, speed: u8, quality: u8) -> (r: Result<Vec<u8>, ConvertError>)
    ensures
        (r is Ok) == convert_succeeds(input@, speed, quality),
        r matches Ok(out) ==> decoded_of(input@) matches Some(img) && out@ == avif_bytes(
            img.canonical(),
            img.width,
            img.height,
            speed,
            quality,
        ) && is_avif_signature(out@),
        decoded_of(input@) is None ==> r is Err && r->Err_0 is Decode,
        r is Err ==> r->Err_0 is Decode || r->Err_0 is Encode,
{
    let img = match decode(input) {
        Ok(i) => i,
        Err(e) => {
            return Err(e);
        },
    };
    proof {
        crate::image_data::lemma_area_fits(img.width, img.height);
        vstd::arithmetic::mul::lemma_mul_is_associative(4, img.width as int, img.height as int);
    }
    if 4 * ((img.width as u128) * (img.height as u128)) > usize::MAX as u128 {
        return Err(ConvertError::Encode(String::from_str(
            "image too large to normalize",
        )));
    }
    let canonical = normalize(&img);
    match encode_avif(&canonical, img.width, img.height, speed, quality) {
        Ok(out) => Ok(out),
        Err(e) => Err(e),
    }
}

} // verus!
