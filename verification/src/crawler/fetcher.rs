//! The checks around an HTTP fetch.
//!
//! The request itself is made by the caller. This module decides which
//! addresses are worth a request and which answers are accepted.

use crate::common::error::Error;
use crate::common::text::{
    chars_of,
    contains,
    contains_chars,
    decimal_digits,
    ends_with_any,
    ends_with_one_of,
    lowercase,
    lowercase_of,
    optional_text,
    push_decimal,
    slice_texts,
};
use crate::crawler::address::{is_http, last_segment, Address, AddressView};
use vstd::prelude::*;
use vstd::string::StringExecFns;

verus! {

/// An accepted answer to a fetch.
#[derive(Debug)]
pub struct FetchResponse {
    pub url: Address,
    pub status_code: u16,
    pub content_type: Option<String>,
    pub body: String,
    pub headers: Vec<(String, String)>,
}

/// What the server sent, before any check: the status, the value of the
/// `content-type` header if there was one, all headers, and the body as
/// far as it was read.
#[derive(Debug)]
pub struct Transfer {
    pub status_code: u16,
    pub content_type: Option<String>,
    pub headers: Vec<(String, String)>,
    pub body: String,
}

/// The settings of the HTTP client.
#[derive(Debug)]
pub struct Fetcher {
    user_agent: String,
    timeout_seconds: u64,
    max_size: usize,
}

/// Endings of a last path segment that mark something other than a page.
pub open spec fn skipped_extensions() -> Seq<Seq<char>> {
    seq![
        ".jpg"@,
        ".jpeg"@,
        ".png"@,
        ".gif"@,
        ".webp"@,
        ".svg"@,
        ".pdf"@,
        ".doc"@,
        ".docx"@,
        ".xls"@,
        ".xlsx"@,
        ".zip"@,
        ".rar"@,
        ".tar"@,
        ".gz"@,
        ".mp3"@,
        ".mp4"@,
        ".avi"@,
        ".mov"@,
        ".css"@,
        ".js"@,
        ".json"@,
        ".xml"@,
    ]
}

/// Whether an address is worth fetching: its scheme is `http` or `https`,
/// and its last path segment, lower-cased, ends in none of `extensions`.
pub open spec fn is_document(url: AddressView, extensions: Seq<Seq<char>>) -> bool {
    is_http(url.scheme) && match last_segment(url.path) {
        Some(last) => !ends_with_one_of(lowercase(last), extensions),
        None => true,
    }
}

/// Whether an address is worth fetching: see [`is_document`], with
/// [`skipped_extensions`].
pub open spec fn worth_fetching(url: AddressView) -> bool {
    is_document(url, skipped_extensions())
}

/// Whether `status` is one of the 2xx codes.
pub open spec fn is_success(status: u16) -> bool {
    200 <= status < 300
}

/// Whether a `content-type` value names HTML or plain text.
pub open spec fn is_text_type(content_type: Seq<char>) -> bool {
    contains(content_type, "text/html"@) || contains(content_type, "text/plain"@)
}

/// Whether `url`'s last path segment, lower-cased, ends in one of
/// `extensions`.
pub fn has_extension(url: &Address, extensions: &[&str]) -> (r: bool)
    ensures
        r == match last_segment(url@.path) {
            Some(last) => ends_with_one_of(
                lowercase(last),
                slice_texts(extensions@),
            ),
            None => false,
        },
{
    match url.last_segment() {
        Some(last) => {
            assert(last@.subrange(0, last@.len() as int) =~= last@);
            let lower = lowercase_of(&last, 0, last.len());
            ends_with_any(&lower, extensions)
        },
        None => false,
    }
}

impl Fetcher {
    /// Settings for a client that sends `user_agent`, gives up after
    /// `timeout_seconds`, and reads at most `max_size` bytes of a body.
    pub fn new(user_agent: String, timeout_seconds: u64, max_size: usize) -> (r: Self)
        ensures
            r.user_agent()@ == user_agent@,
            r.timeout_seconds() == timeout_seconds,
            r.max_size() == max_size,
    {
        Fetcher { user_agent, timeout_seconds, max_size }
    }

    /// The `User-Agent` header to send.
    pub closed spec fn user_agent(&self) -> String {
        self.user_agent
    }

    /// The timeout of a request, in seconds.
    pub closed spec fn timeout_seconds(&self) -> u64 {
        self.timeout_seconds
    }

    /// The largest number of body bytes to read.
    pub closed spec fn max_size(&self) -> usize {
        self.max_size
    }

    /// The `User-Agent` header to send.
    pub fn get_user_agent(&self) -> (r: &str)
        ensures
            r@ == self.user_agent()@,
    {
        self.user_agent.as_str()
    }

    /// The timeout of a request, in seconds.
    pub fn get_timeout_seconds(&self) -> (r: u64)
        ensures
            r == self.timeout_seconds(),
    {
        self.timeout_seconds
    }

    /// The largest number of body bytes to read.
    pub fn get_max_size(&self) -> (r: usize)
        ensures
            r == self.max_size(),
    {
        self.max_size
    }

    /// The text to send a GET request to, or the HTTP error for an
    /// address whose scheme is neither `http` nor `https`.
    pub fn request_target<'a>(&self, url: &'a Address) -> (r: Result<&'a str, Error>)
        ensures
            match r {
                Ok(target) => is_http(url@.scheme) && target@ == url@.text,
                Err(e) => {
                    &&& !is_http(url@.scheme)
                    &&& e matches Error::HttpError(m)
                    &&& m@ == "Unsupported URL scheme: "@ + url@.scheme
                },
            },
    {
        if url.is_http() {
            Ok(url.as_str())
        } else {
            let mut message = "Unsupported URL scheme: ".to_owned();
            message.append(url.scheme());
            Err(Error::HttpError(message))
        }
    }

    /// What the status line and the content type of an answer come to,
    /// before the body is read: nothing to object to, or the error that
    /// ends the fetch.
    pub open spec fn head_verdict(
        url: AddressView,
        status_code: u16,
        content_type: Option<Seq<char>>,
        r: Result<(), Error>,
    ) -> bool {
        match r {
            Ok(_) => {
                &&& is_http(url.scheme)
                &&& is_success(status_code)
                &&& (content_type matches Some(ct) ==> is_text_type(ct))
            },
            Err(Error::HttpError(m)) => {
                if !is_http(url.scheme) {
                    m@ == "Unsupported URL scheme: "@ + url.scheme
                } else {
                    &&& !is_success(status_code)
                    &&& m@ == "HTTP "@ + decimal_digits(status_code as nat) + " for "@ + url.text
                }
            },
            Err(Error::InvalidResponse(m)) => {
                &&& is_http(url.scheme)
                &&& is_success(status_code)
                &&& content_type matches Some(ct)
                &&& !is_text_type(ct)
                &&& m@ == "Non-HTML content type: "@ + ct
            },
            Err(_) => false,
        }
    }

    /// Checks the status and the content type of an answer from `url`.
    ///
    /// The answer is accepted if the scheme is `http` or `https`, the
    /// status is 2xx, and the content type, where there is one, names
    /// HTML or plain text. The checks are made in that order, and the
    /// first that fails gives the error: an HTTP error for the scheme and
    /// for the status, an invalid response for the content type.
    pub fn check_head(&self, url: &Address, status_code: u16, content_type: Option<&str>) -> (r:
        Result<(), Error>)
        ensures
            Self::head_verdict(
                url@,
                status_code,
                match content_type {
                    Some(ct) => Some(ct@),
                    None => None,
                },
                r,
            ),
    {
        if !url.is_http() {
            let mut message = "Unsupported URL scheme: ".to_owned();
            message.append(url.scheme());
            return Err(Error::HttpError(message));
        }
        if !(status_code >= 200 && status_code < 300) {
            let mut message = "HTTP ".to_owned();
            push_decimal(&mut message, status_code as u64);
            message.append(" for ");
            message.append(url.as_str());
            return Err(Error::HttpError(message));
        }
        match content_type {
            Some(ct) => {
                let chars = chars_of(ct);
                let html = chars_of("text/html");
                let plain = chars_of("text/plain");
                if !contains_chars(&chars, &html) && !contains_chars(&chars, &plain) {
                    let mut message = "Non-HTML content type: ".to_owned();
                    message.append(ct);
                    return Err(Error::InvalidResponse(message));
                }
            },
            None => {},
        }
        Ok(())
    }

    /// Accepts or rejects what a request to `url` brought back.
    ///
    /// `transfer` is the server's answer, or the message of the transport
    /// error. An address that is not `http` or `https` is rejected
    /// whatever came back; a transport error becomes an HTTP error with
    /// the same message; an answer is judged as by
    /// [`Fetcher::check_head`], and one that passes is handed on
    /// unchanged.
    pub fn fetch(&self, url: &Address, transfer: Result<Transfer, String>) -> (r: Result<
        FetchResponse,
        Error,
    >)
        ensures
            match transfer {
                Ok(t) => match r {
                    Ok(response) => {
                        &&& Self::head_verdict(
                            url@,
                            t.status_code,
                            optional_text(t.content_type),
                            Ok(()),
                        )
                        &&& response.url@ == url@
                        &&& response.status_code == t.status_code
                        &&& response.content_type == t.content_type
                        &&& response.body == t.body
                        &&& response.headers == t.headers
                    },
                    Err(e) => Self::head_verdict(
                        url@,
                        t.status_code,
                        optional_text(t.content_type),
                        Err(e),
                    ),
                },
                Err(reason) => {
                    &&& r matches Err(Error::HttpError(m))
                    &&& if is_http(url@.scheme) {
                        m == reason
                    } else {
                        m@ == "Unsupported URL scheme: "@ + url@.scheme
                    }
                },
            },
    {
        match transfer {
            Ok(t) => {
                let head = self.check_head(
                    url,
                    t.status_code,
                    match &t.content_type {
                        Some(ct) => Some(ct.as_str()),
                        None => None,
                    },
                );
                match head {
                    Ok(_) => Ok(
                        FetchResponse {
                            url: url.clone(),
                            status_code: t.status_code,
                            content_type: t.content_type,
                            body: t.body,
                            headers: t.headers,
                        },
                    ),
                    Err(e) => Err(e),
                }
            },
            Err(reason) => {
                if !url.is_http() {
                    let mut message = "Unsupported URL scheme: ".to_owned();
                    message.append(url.scheme());
                    return Err(Error::HttpError(message));
                }
                Err(Error::HttpError(reason))
            },
        }
    }

    /// Whether `url` is worth fetching: an `http` or `https` address whose
    /// last path segment does not end, in any letter case, in one of
    /// [`skipped_extensions`].
    pub fn should_fetch(url: &Address) -> (r: bool)
        ensures
            r == worth_fetching(url@),
    {
        if !url.is_http() {
            return false;
        }
        let skip: [&str; 23] = [
            ".jpg",
            ".jpeg",
            ".png",
            ".gif",
            ".webp",
            ".svg",
            ".pdf",
            ".doc",
            ".docx",
            ".xls",
            ".xlsx",
            ".zip",
            ".rar",
            ".tar",
            ".gz",
            ".mp3",
            ".mp4",
            ".avi",
            ".mov",
            ".css",
            ".js",
            ".json",
            ".xml",
        ];
        assert(slice_texts(skip@) =~= skipped_extensions());
        !has_extension(url, skip.as_slice())
    }
}

} // verus!
