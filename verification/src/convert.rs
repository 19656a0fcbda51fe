//! The conversion engine: decode the upload, fit icon targets into a
//! bounding box, encode to the target format, then re-decode the fresh
//! artifact as a sanity check.
//!
//! The codecs of the `image` crate do the pixel work behind trusted
//! wrappers. Every codec step is a function of its arguments alone, so
//! its outcome carries a name (`decoded_dims`, `encoded`,
//! `container_of`) and the pipeline around the codecs — which format is
//! accepted, when each failure is reported, when success is owed, what
//! the artifact's container and dimensions are — is verified.

use vstd::prelude::*;
use crate::errors::ServiceError;
use crate::format::parse_format;
use crate::format::spec_parse_format;
use crate::format::TargetFormat;

verus! {

#[verifier::external_type_specification]
#[verifier::external_body]
pub struct ExImageFormat(image::ImageFormat);

/// The dimensions of the bitmap that `image::load_from_memory` decodes
/// these bytes to, or `None` where they do not decode. Decoding is a
/// function of the bytes alone.
pub uninterp spec fn decoded_dims(bytes: Seq<u8>) -> Option<(u32, u32)>;

/// Whether `image::load_from_memory` accepts these bytes as an image.
pub open spec fn decodes(bytes: Seq<u8>) -> bool {
    decoded_dims(bytes) is Some
}

/// The artifact the engine's codec pipeline produces from `input` under
/// target `t`, after fitting the bitmap within `fit_w` by `fit_h`
/// (either bound zero: no fit step); `None` where decoding `input` or
/// encoding fails. Deterministic in its arguments: the codecs draw on
/// nothing else.
pub uninterp spec fn encoded(input: Seq<u8>, fit_w: u32, fit_h: u32, t: TargetFormat) -> Option<
    Seq<u8>,
>;

/// The target format whose container `image::guess_format` recognises
/// these bytes as, `None` for anything outside the supported set.
pub uninterp spec fn container_of(bytes: Seq<u8>) -> Option<TargetFormat>;

/// Relies on image::load_from_memory (with width and height read off
/// its result): whether, and to what dimensions, a byte buffer decodes
/// depends on the bytes alone; the failure cause is formatted into a
/// string.
#[verifier::external_body]
fn probe_image(bytes: &Vec<u8>) -> (r: Result<(u32, u32), String>)
    ensures
        r is Ok <==> decodes(bytes@),
        r matches Ok(d) ==> decoded_dims(bytes@) == Some(d),
{
    match image::load_from_memory(bytes.as_slice()) {
        Ok(img) => Ok((img.width(), img.height())),
        Err(e) => Err(format!("{:?}", e)),
    }
}

/// Relies on image::ImageFormat: the codec tag under which each target
/// of the closed set is encoded. Only `reencode` uses it; a wrong arm
/// here would break the container clause of `reencode`, which the
/// tests exercise through `image::guess_format`.
#[verifier::external_body]
fn image_format_of(t: TargetFormat) -> image::ImageFormat {
    match t {
        TargetFormat::Png => image::ImageFormat::Png,
        TargetFormat::Jpg => image::ImageFormat::Jpeg,
        TargetFormat::Gif => image::ImageFormat::Gif,
        TargetFormat::Bmp => image::ImageFormat::Bmp,
        TargetFormat::Webp => image::ImageFormat::WebP,
        TargetFormat::Ico => image::ImageFormat::Ico,
        TargetFormat::Tiff => image::ImageFormat::Tiff,
    }
}

/// Relies on image::load_from_memory, DynamicImage::thumbnail and
/// DynamicImage::write_to, composed in that order; `write_to` converts
/// the colour type as the codec needs. Each step depends on the
/// arguments alone, so the outcome is the named `encoded(...)`. Of a
/// returned artifact the codec sources show: it starts with `t`'s
/// container magic, which `guess_format` recognises; and where it
/// decodes again, it decodes to the encoded bitmap's dimensions — the
/// source's where no fit ran, at least one and at most the bound on
/// each side where the fit ran (`resize_dimensions` clamps to
/// `1..=bound`).
#[verifier::external_body]
fn reencode(input: &Vec<u8>, fit_w: u32, fit_h: u32, t: TargetFormat) -> (r: Result<
    Vec<u8>,
    String,
>)
    ensures
        r is Ok <==> encoded(input@, fit_w, fit_h, t) is Some,
        r matches Ok(b) ==> Some(b@) == encoded(input@, fit_w, fit_h, t),
        r matches Ok(b) ==> container_of(b@) == Some(t),
        r matches Ok(b) ==> ((fit_w == 0 || fit_h == 0) && decodes(b@) ==> decoded_dims(b@)
            == decoded_dims(input@)),
        r matches Ok(b) ==> ((1 <= fit_w && 1 <= fit_h) ==> (decoded_dims(b@) matches Some(d)
            ==> 1 <= d.0 <= fit_w && 1 <= d.1 <= fit_h)),
{
    let img = match image::load_from_memory(input.as_slice()) {
        Ok(i) => i,
        Err(e) => return Err(format!("{:?}", e)),
    };
    let img = if fit_w > 0 && fit_h > 0 { img.thumbnail(fit_w, fit_h) } else { img };
    let mut buf: Vec<u8> = Vec::new();
    match img.write_to(std::io::Cursor::new(&mut buf), image_format_of(t)) {
        Ok(()) => Ok(buf),
        Err(e) => Err(format!("{:?}", e)),
    }
}

/// The bounding box the engine applies before encoding: the 256-square
/// icon box when an icon target's source overflows it; no fit — and no
/// upscaling — otherwise.
pub open spec fn spec_fit_bounds(t: TargetFormat, w: u32, h: u32) -> (u32, u32) {
    if t is Ico && (w > 256 || h > 256) {
        (256, 256)
    } else {
        (0, 0)
    }
}

/// The artifact the engine produces for `input` under `t`: `None` where
/// the input does not decode or the encode step fails.
pub open spec fn spec_engine_artifact(input: Seq<u8>, t: TargetFormat) -> Option<Seq<u8>> {
    match decoded_dims(input) {
        None => None,
        Some(d) => encoded(
            input,
            spec_fit_bounds(t, d.0, d.1).0,
            spec_fit_bounds(t, d.0, d.1).1,
            t,
        ),
    }
}

/// When the whole conversion of `input` to the format `fmt` names
/// succeeds: `fmt` supported, the input decodable, the encode step
/// successful and the artifact decodable again.
pub open spec fn spec_convert_ok(input: Seq<u8>, fmt: Seq<char>) -> bool {
    match spec_parse_format(fmt) {
        None => false,
        Some(t) => match spec_engine_artifact(input, t) {
            None => false,
            Some(b) => decodes(b),
        },
    }
}

/// When the encode step is the one that fails.
pub open spec fn spec_encode_fails(input: Seq<u8>, fmt: Seq<char>) -> bool {
    match spec_parse_format(fmt) {
        None => false,
        Some(t) => decodes(input) && spec_engine_artifact(input, t) is None,
    }
}

/// When an artifact is produced but fails the decode sanity check.
pub open spec fn spec_validation_fails(input: Seq<u8>, fmt: Seq<char>) -> bool {
    match spec_parse_format(fmt) {
        None => false,
        Some(t) => match spec_engine_artifact(input, t) {
            None => false,
            Some(b) => !decodes(b),
        },
    }
}

/// A finished conversion: the encoded artifact, and the dimensions it
/// decodes back to under the engine's own decoder.
pub struct ConvertedImage {
    pub bytes: Vec<u8>,
    pub width: u32,
    pub height: u32,
}

/// The sanity check closing every conversion: the freshly encoded
/// artifact must itself decode. Accepts exactly the byte buffers the
/// engine's own decoder accepts; anything else is a validation failure.
pub fn validate_artifact(bytes: &Vec<u8>) -> (r: Result<(), ServiceError>)
    ensures
        r is Ok <==> decodes(bytes@),
        r matches Err(e) ==> e is Validation,
{
    match probe_image(bytes) {
        Ok(_) => Ok(()),
        Err(cause) => Err(ServiceError::Validation(cause)),
    }
}

/// Converts one uploaded image, handed over as bytes, to the requested
/// target format.
///
/// A format outside the closed set is refused before anything is
/// decoded; undecodable input is a decode failure. An icon target whose
/// source overflows a 256-by-256 box is fitted into it, aspect ratio
/// preserved; every other source keeps its dimensions — nothing is
/// upscaled. The result succeeds exactly when the codecs deliver and
/// the artifact passes the decode sanity check; it then carries the
/// requested format's container and the dimensions it decodes back to.
pub fn convert_image(input: &Vec<u8>, output_format: &str) -> (r: Result<
    ConvertedImage,
    ServiceError,
>)
    ensures
        r is Ok <==> spec_convert_ok(input@, output_format@),
        (r matches Err(e) && e is UnsupportedFormat) <==> spec_parse_format(output_format@)
            is None,
        (r matches Err(e) && e is Decode) <==> (spec_parse_format(output_format@) is Some
            && !decodes(input@)),
        (r matches Err(e) && e is Encode) <==> spec_encode_fails(input@, output_format@),
        (r matches Err(e) && e is Validation) <==> spec_validation_fails(input@, output_format@),
        r matches Err(e) ==> (e is UnsupportedFormat || e is Decode || e is Encode
            || e is Validation),
        r matches Ok(c) ==> (spec_parse_format(output_format@) matches Some(t) && Some(c.bytes@)
            == spec_engine_artifact(input@, t) && container_of(c.bytes@) == Some(t)
            && decoded_dims(c.bytes@) == Some((c.width, c.height))),
        r matches Ok(c) ==> (decoded_dims(input@) matches Some(d) && (if (spec_parse_format(
            output_format@,
        ) == Some(TargetFormat::Ico)) && (d.0 > 256 || d.1 > 256) {
            c.width <= 256 && c.height <= 256
        } else {
            c.width == d.0 && c.height == d.1
        })),
        r matches Ok(c) ==> (spec_parse_format(output_format@) == Some(TargetFormat::Ico) ==> (
        c.width <= 256 && c.height <= 256)),
{
    let target = match parse_format(output_format) {
        None => {
            return Err(ServiceError::UnsupportedFormat);
        },
        Some(t) => t,
    };
    let dims = match probe_image(input) {
        Err(cause) => {
            return Err(ServiceError::Decode(cause));
        },
        Ok(d) => d,
    };
    let fit: (u32, u32) = if target == TargetFormat::Ico && (dims.0 > 256 || dims.1 > 256) {
        (256, 256)
    } else {
        (0, 0)
    };
    proof {
        assert(fit == spec_fit_bounds(target, dims.0, dims.1));
    }
    let bytes = match reencode(input, fit.0, fit.1, target) {
        Err(cause) => {
            return Err(ServiceError::Encode(cause));
        },
        Ok(b) => b,
    };
    let out_dims = match probe_image(&bytes) {
        Err(cause) => {
            return Err(ServiceError::Validation(cause));
        },
        Ok(d) => d,
    };
    Ok(ConvertedImage { bytes, width: out_dims.0, height: out_dims.1 })
}

} // verus!
