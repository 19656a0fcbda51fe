//! The closed set of target formats the service converts to, and the
//! mapping between those formats and the extension strings clients send.

use vstd::prelude::*;
use crate::text::str_eq;

verus! {

/// The raster and icon formats an artifact can be encoded in.
#[derive(Debug, Clone, Copy, PartialEq, Eq, Structural)]
pub enum TargetFormat {
    Png,
    Jpg,
    Gif,
    Bmp,
    Webp,
    Ico,
    Tiff,
}

/// The extension string that names `t`, as it appears both in requests
/// and in artifact names.
pub open spec fn spec_extension(t: TargetFormat) -> Seq<char> {
    match t {
        TargetFormat::Png => "png"@,
        TargetFormat::Jpg => "jpg"@,
        TargetFormat::Gif => "gif"@,
        TargetFormat::Bmp => "bmp"@,
        TargetFormat::Webp => "webp"@,
        TargetFormat::Ico => "ico"@,
        TargetFormat::Tiff => "tiff"@,
    }
}

/// The format a requested `output_format` string names, if any.
pub open spec fn spec_parse_format(s: Seq<char>) -> Option<TargetFormat> {
    if s == "png"@ {
        Some(TargetFormat::Png)
    } else if s == "jpg"@ {
        Some(TargetFormat::Jpg)
    } else if s == "gif"@ {
        Some(TargetFormat::Gif)
    } else if s == "bmp"@ {
        Some(TargetFormat::Bmp)
    } else if s == "webp"@ {
        Some(TargetFormat::Webp)
    } else if s == "ico"@ {
        Some(TargetFormat::Ico)
    } else if s == "tiff"@ {
        Some(TargetFormat::Tiff)
    } else {
        None
    }
}

/// Only icon targets are resized to a bounding box before encoding.
pub open spec fn spec_needs_resize(t: TargetFormat) -> bool {
    t is Ico
}

/// Recognises a requested target format; anything outside the closed
/// set is reported to the caller as unsupported.
pub fn parse_format(s: &str) -> (r: Option<TargetFormat>)
    ensures
        r == spec_parse_format(s@),
{
    if str_eq(s, "png") {
        Some(TargetFormat::Png)
    } else if str_eq(s, "jpg") {
        Some(TargetFormat::Jpg)
    } else if str_eq(s, "gif") {
        Some(TargetFormat::Gif)
    } else if str_eq(s, "bmp") {
        Some(TargetFormat::Bmp)
    } else if str_eq(s, "webp") {
        Some(TargetFormat::Webp)
    } else if str_eq(s, "ico") {
        Some(TargetFormat::Ico)
    } else if str_eq(s, "tiff") {
        Some(TargetFormat::Tiff)
    } else {
        None
    }
}

/// The extension under which an artifact of format `t` is named.
pub fn extension(t: TargetFormat) -> (r: &'static str)
    ensures
        r@ == spec_extension(t),
{
    match t {
        TargetFormat::Png => "png",
        TargetFormat::Jpg => "jpg",
        TargetFormat::Gif => "gif",
        TargetFormat::Bmp => "bmp",
        TargetFormat::Webp => "webp",
        TargetFormat::Ico => "ico",
        TargetFormat::Tiff => "tiff",
    }
}

/// Each format's own extension parses back to that format: the closed
/// set is named without ambiguity.
pub proof fn lemma_extension_names_format(t: TargetFormat)
    ensures
        spec_parse_format(spec_extension(t)) == Some(t),
{
    reveal_strlit("png");
    reveal_strlit("jpg");
    reveal_strlit("gif");
    reveal_strlit("bmp");
    reveal_strlit("webp");
    reveal_strlit("ico");
    reveal_strlit("tiff");
    assert("png"@ != "jpg"@) by {
        assert("png"@[0] != "jpg"@[0]);
    }
    assert("gif"@ != "png"@ && "gif"@ != "jpg"@) by {
        assert("gif"@[0] != "png"@[0] && "gif"@[0] != "jpg"@[0]);
    }
    assert("bmp"@ != "png"@ && "bmp"@ != "jpg"@ && "bmp"@ != "gif"@) by {
        assert("bmp"@[0] != "png"@[0] && "bmp"@[0] != "jpg"@[0] && "bmp"@[0] != "gif"@[0]);
    }
    assert("webp"@ != "png"@ && "webp"@ != "jpg"@ && "webp"@ != "gif"@ && "webp"@ != "bmp"@) by {
        assert("webp"@.len() == 4 && "png"@.len() == 3 && "jpg"@.len() == 3 && "gif"@.len() == 3
            && "bmp"@.len() == 3);
    }
    assert("ico"@ != "png"@ && "ico"@ != "jpg"@ && "ico"@ != "gif"@ && "ico"@ != "bmp"@ && "ico"@
        != "webp"@) by {
        assert("ico"@[0] != "png"@[0] && "ico"@[0] != "jpg"@[0] && "ico"@[0] != "gif"@[0] && "ico"@[
            0] != "bmp"@[0] && "ico"@.len() != "webp"@.len());
    }
    assert("tiff"@ != "png"@ && "tiff"@ != "jpg"@ && "tiff"@ != "gif"@ && "tiff"@ != "bmp"@
        && "tiff"@ != "webp"@ && "tiff"@ != "ico"@) by {
        assert("tiff"@[0] != "webp"@[0] && "tiff"@.len() != "png"@.len() && "tiff"@.len() != "jpg"@
            .len() && "tiff"@.len() != "gif"@.len() && "tiff"@.len() != "bmp"@.len() && "tiff"@
            .len() != "ico"@.len());
    }
}

} // verus!
