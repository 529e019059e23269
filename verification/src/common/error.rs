//! The error type shared by every component.

use vstd::prelude::*;

verus! {

/// The `url` crate's parse error. It is carried through unchanged;
/// nothing in this crate looks inside it.
#[verifier::external_type_specification]
#[verifier::external_body]
pub struct ExParseError(url::ParseError);

/// What can go wrong while crawling. Variants for storage, indexing,
/// configuration and I/O carry the message of the failure they report.
#[derive(Debug)]
pub enum Error {
    /// The transport failed, the server answered outside 2xx, or the
    /// address has a scheme other than `http` and `https`.
    HttpError(String),
    /// Text that is no address, absolute or relative.
    UrlParseError(url::ParseError),
    /// Markup from which nothing could be extracted.
    HtmlParseError(String),
    StorageError(String),
    IndexError(String),
    ConfigError(String),
    IoError(String),
    RateLimitError(String),
    RobotsForbidden(String),
    /// A response of another content type than HTML or plain text, or
    /// an address that the crawler cannot work with.
    InvalidResponse(String),
    Timeout,
    Unknown(String),
}

} // verus!
