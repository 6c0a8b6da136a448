//! Errors surfaced to callers of the library.
use vstd::prelude::*;

verus! {

/// Why an operation failed.
#[derive(Debug)]
pub enum ApiError {
    /// Talking to the storefront API or the download host failed.
    Api(String),
    /// A local filesystem operation failed.
    IO(String),
    /// A download URL does not parse.
    UrlParse(url::ParseError),
    /// A download URL has no usable file name.
    MalformedUrl,
    /// A freshly downloaded file does not match its expected digest; it has
    /// been removed.
    IntegrityMismatch(String),
}

} // verus!
