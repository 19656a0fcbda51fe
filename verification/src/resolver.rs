//! The download resolver: maps a requested artifact name to its place
//! under the persistent-storage root, or reports absence.
//!
//! The transport performs the existence check and the read; the library
//! decides the path, the outcome and the content type.

use vstd::prelude::*;
use crate::errors::ServiceError;
use crate::format::spec_parse_format;
use crate::format::parse_format;
use crate::format::TargetFormat;
use crate::namer::last_dot;
use crate::namer::lemma_last_dot_is;
use crate::namer::lemma_no_dot;

verus! {

/// Where a requested artifact would live: the name joined under the
/// persistent-storage root.
pub open spec fn spec_download_path(name: Seq<char>) -> Seq<char> {
    "downloads/"@ + name
}

/// Joins a requested artifact name under the persistent-storage root.
pub fn download_path(name: &str) -> (r: String)
    ensures
        r@ == spec_download_path(name@),
{
    String::from_str("downloads/").concat(name)
}

/// Decides a download request, given whether the artifact's path exists:
/// the stored path when it does, `NotFound` when it does not. Read-only
/// either way.
pub fn resolve_download(name: &str, present: bool) -> (r: Result<String, ServiceError>)
    ensures
        present ==> (r matches Ok(p) && p@ == spec_download_path(name@)),
        !present ==> (r matches Err(e) && e is NotFound),
{
    if present {
        Ok(download_path(name))
    } else {
        Err(ServiceError::NotFound)
    }
}

/// The extension of an artifact name: what follows its last dot, empty
/// when there is none.
pub open spec fn spec_extension_of(name: Seq<char>) -> Seq<char> {
    if last_dot(name) >= 1 {
        name.skip(last_dot(name) + 1)
    } else {
        Seq::empty()
    }
}

/// The content type served for an artifact, inferred from its extension.
pub open spec fn spec_content_type(name: Seq<char>) -> Seq<char> {
    match spec_parse_format(spec_extension_of(name)) {
        Some(TargetFormat::Png) => "image/png"@,
        Some(TargetFormat::Jpg) => "image/jpeg"@,
        Some(TargetFormat::Gif) => "image/gif"@,
        Some(TargetFormat::Bmp) => "image/bmp"@,
        Some(TargetFormat::Webp) => "image/webp"@,
        Some(TargetFormat::Ico) => "image/x-icon"@,
        Some(TargetFormat::Tiff) => "image/tiff"@,
        None => "application/octet-stream"@,
    }
}

/// Infers the content type an artifact is served under from the
/// extension of its name; outside the supported set it falls back to
/// an opaque byte stream.
pub fn content_type_for(name: &str) -> (r: &'static str)
    ensures
        r@ == spec_content_type(name@),
{
    let n = name.unicode_len();
    let mut i: usize = n;
    let mut found: usize = 0;
    while i > 1 && found == 0
        invariant
            n == name@.len(),
            i <= n,
            n >= 1 ==> i >= 1,
            found == 0 ==> forall|j: int| i <= j < n ==> name@[j] != '.',
            found >= 1 ==> 1 <= found < n && name@[found as int] == '.' && forall|j: int|
                found < j < n ==> name@[j] != '.',
        decreases i, (if found == 0 { 1int } else { 0int }),
    {
        if name.get_char(i - 1) == '.' {
            found = i - 1;
        } else {
            i -= 1;
        }
    }
    let ext: &str = if found == 0 {
        proof {
            lemma_no_dot(name@);
        }
        ""
    } else {
        proof {
            lemma_last_dot_is(name@, found as int);
        }
        let e = name.substring_char(found + 1, n);
        proof {
            assert(e@ =~= spec_extension_of(name@));
        }
        e
    };
    proof {
        if found == 0 {
            reveal_strlit("");
            assert(ext@ =~= spec_extension_of(name@));
        }
    }
    match parse_format(ext) {
        Some(TargetFormat::Png) => "image/png",
        Some(TargetFormat::Jpg) => "image/jpeg",
        Some(TargetFormat::Gif) => "image/gif",
        Some(TargetFormat::Bmp) => "image/bmp",
        Some(TargetFormat::Webp) => "image/webp",
        Some(TargetFormat::Ico) => "image/x-icon",
        Some(TargetFormat::Tiff) => "image/tiff",
        None => "application/octet-stream",
    }
}

} // verus!
