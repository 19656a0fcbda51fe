//! Verified core of an image conversion service.
//!
//! The library owns the logic of the service: recognising the target
//! format, allocating task identifiers, deriving artifact names, choosing
//! the uploaded file among multipart parts, running the conversion
//! pipeline over the `image` codecs, and resolving download requests.
//! The HTTP transport around it only moves bytes in and out.

pub mod convert;
pub mod errors;
pub mod format;
pub mod namer;
pub mod resolver;
pub mod response;
pub mod task;
pub mod text;
pub mod upload;
