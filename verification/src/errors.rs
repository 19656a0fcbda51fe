//! The service's failure taxonomy.
//!
//! Client mistakes (no filename, no file, an unknown target format) are
//! reported with status 400, a missing artifact with 404, and failures
//! inside the conversion pipeline with 500. Engine errors carry the
//! formatted cause handed back by the codec.

use vstd::prelude::*;

verus! {

/// Every failure the service can report.
#[derive(Debug, Clone)]
pub enum ServiceError {
    /// A multipart part arrived without a filename.
    NoFilename,
    /// The multipart body held no file-bearing part at all.
    NoFileUploaded,
    /// The requested target format is outside the supported set.
    UnsupportedFormat,
    /// The uploaded bytes could not be decoded; carries the cause.
    Decode(String),
    /// Encoding to the target format failed; carries the cause.
    Encode(String),
    /// The freshly written artifact failed the decode sanity check.
    Validation(String),
    /// The uploaded filename has no usable stem.
    InvalidName,
    /// The requested artifact does not exist.
    NotFound,
}

impl ServiceError {
    /// The human-readable reason reported to the client.
    pub open spec fn spec_message(&self) -> Seq<char> {
        match self {
            ServiceError::NoFilename => "No filename provided in the request"@,
            ServiceError::NoFileUploaded => "No file uploaded"@,
            ServiceError::UnsupportedFormat => "Unsupported output format"@,
            ServiceError::Decode(c) => "Failed to decode image: "@ + c@,
            ServiceError::Encode(c) => "Image conversion failed: "@ + c@,
            ServiceError::Validation(c) => "Failed to reopen output image: "@ + c@,
            ServiceError::InvalidName => "Invalid file name"@,
            ServiceError::NotFound => "File not found"@,
        }
    }

    /// True of the errors caused by the request itself, reported as 400.
    pub open spec fn spec_is_client_error(&self) -> bool {
        self is NoFilename || self is NoFileUploaded || self is UnsupportedFormat
    }

    /// The HTTP status under which this error is surfaced.
    pub open spec fn spec_status(&self) -> int {
        if self.spec_is_client_error() {
            400
        } else if self is NotFound {
            404
        } else {
            500
        }
    }

    pub fn message(&self) -> (r: String)
        ensures
            r@ == self.spec_message(),
    {
        match self {
            ServiceError::NoFilename => String::from_str("No filename provided in the request"),
            ServiceError::NoFileUploaded => String::from_str("No file uploaded"),
            ServiceError::UnsupportedFormat => String::from_str("Unsupported output format"),
            ServiceError::Decode(c) => String::from_str("Failed to decode image: ").concat(
                c.as_str(),
            ),
            ServiceError::Encode(c) => String::from_str("Image conversion failed: ").concat(
                c.as_str(),
            ),
            ServiceError::Validation(c) => String::from_str("Failed to reopen output image: ")
                .concat(c.as_str()),
            ServiceError::InvalidName => String::from_str("Invalid file name"),
            ServiceError::NotFound => String::from_str("File not found"),
        }
    }

    pub fn http_status(&self) -> (r: u16)
        ensures
            r == self.spec_status(),
    {
        match self {
            ServiceError::NoFilename => 400,
            ServiceError::NoFileUploaded => 400,
            ServiceError::UnsupportedFormat => 400,
            ServiceError::NotFound => 404,
            ServiceError::Decode(_) => 500,
            ServiceError::Encode(_) => 500,
            ServiceError::Validation(_) => 500,
            ServiceError::InvalidName => 500,
        }
    }
}

} // verus!
