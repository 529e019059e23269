//! Absolute addresses.
//!
//! An [`Address`] holds, as plain strings, the parts of a parsed URL that
//! the crawler reads. Parsing and joining are done by the `url` crate; the
//! two functions that call it are trusted, and what they return is named
//! by [`url_parse`] and [`url_join`].

use crate::common::error::Error;
use crate::common::text::{after_last, chars_of, slice_of};
use vstd::prelude::*;

verus! {

/// An absolute address, as the `url` crate parsed it. Its parts belong
/// together: an address is made by [`Address::parse`] or
/// [`Address::join`] and in no other way.
#[derive(Debug)]
pub struct Address {
    /// The normalised serialisation of the whole address.
    text: String,
    /// The scheme, lower-cased, without the `:`.
    scheme: String,
    /// The host, where it is a domain name and not an IP address.
    domain: Option<String>,
    /// The path, percent-encoded.
    path: String,
}

/// The mathematical value of an [`Address`].
pub struct AddressView {
    pub text: Seq<char>,
    pub scheme: Seq<char>,
    pub domain: Option<Seq<char>>,
    pub path: Seq<char>,
}

impl View for Address {
    type V = AddressView;

    closed spec fn view(&self) -> AddressView {
        AddressView {
            text: self.text@,
            scheme: self.scheme@,
            domain: match self.domain {
                Some(d) => Some(d@),
                None => None,
            },
            path: self.path@,
        }
    }
}

/// Whether `a` is what parsing some text, or joining some reference to
/// some base, gives.
pub open spec fn is_parsed(a: AddressView) -> bool {
    (exists|input: Seq<char>| url_parse(input) == Some(a)) || (exists|
        base: Seq<char>,
        reference: Seq<char>,
    | url_join(base, reference) == Some(a))
}

/// What `Url::parse` makes of `input`: the parts of the parsed URL, or
/// `None` where `input` is no absolute URL.
pub uninterp spec fn url_parse(input: Seq<char>) -> Option<AddressView>;

/// What `Url::join` makes of `reference` against the URL that `base`
/// parses to: the parts of the resulting URL, or `None` where `base` is
/// no absolute URL or `reference` cannot be resolved against it.
pub uninterp spec fn url_join(base: Seq<char>, reference: Seq<char>) -> Option<AddressView>;

/// Calls `Url::parse` and copies out the serialisation, scheme, domain
/// and path of the URL it returns. The result is the meaning of
/// [`url_parse`].
#[verifier::external_body]
fn parse_url(input: &str) -> (r: Result<Address, url::ParseError>)
    ensures
        r is Ok <==> url_parse(input@) is Some,
        r matches Ok(a) ==> url_parse(input@) == Some(a@),
{
    let url = url::Url::parse(input)?;
    Ok(
        Address {
            text: url.as_str().to_string(),
            scheme: url.scheme().to_string(),
            domain: url.domain().map(|d| d.to_string()),
            path: url.path().to_string(),
        },
    )
}

/// Parses `base` with `Url::parse`, calls `Url::join` on it with
/// `reference`, and copies out the same four parts. The result is the
/// meaning of [`url_join`].
#[verifier::external_body]
fn join_url(base: &str, reference: &str) -> (r: Result<Address, url::ParseError>)
    ensures
        r is Ok <==> url_join(base@, reference@) is Some,
        r matches Ok(a) ==> url_join(base@, reference@) == Some(a@),
{
    let url = url::Url::parse(base)?.join(reference)?;
    Ok(
        Address {
            text: url.as_str().to_string(),
            scheme: url.scheme().to_string(),
            domain: url.domain().map(|d| d.to_string()),
            path: url.path().to_string(),
        },
    )
}

/// The last of the `/`-separated segments of `path`: what follows the
/// last `/`. A path that does not begin with `/` has no segments.
pub open spec fn last_segment(path: Seq<char>) -> Option<Seq<char>> {
    if path.len() > 0 && path[0] == '/' {
        Some(after_last(path.skip(1), '/'))
    } else {
        None
    }
}

/// Whether `scheme` is `http` or `https`.
pub open spec fn is_http(scheme: Seq<char>) -> bool {
    scheme == "http"@ || scheme == "https"@
}

impl Clone for Address {
    fn clone(&self) -> (r: Self)
        ensures
            r@ == self@,
    {
        proof {
            use_type_invariant(self);
        }
        Address {
            text: self.text.clone(),
            scheme: self.scheme.clone(),
            domain: match &self.domain {
                Some(d) => Some(d.clone()),
                None => None,
            },
            path: self.path.clone(),
        }
    }
}

impl Address {
    /// The invariant of the type: every address is a parsed one.
    #[verifier::type_invariant]
    spec fn valid(&self) -> bool {
        is_parsed(self@)
    }

    /// Parses an absolute address.
    pub fn parse(input: &str) -> (r: Result<Address, Error>)
        ensures
            match r {
                Ok(a) => url_parse(input@) == Some(a@),
                Err(e) => url_parse(input@) is None && e is UrlParseError,
            },
    {
        match parse_url(input) {
            Ok(a) => Ok(a),
            Err(e) => Err(Error::UrlParseError(e)),
        }
    }

    /// Resolves `reference`, absolute or relative, against this address.
    pub fn join(&self, reference: &str) -> (r: Result<Address, Error>)
        ensures
            match r {
                Ok(a) => url_join(self@.text, reference@) == Some(a@),
                Err(e) => url_join(self@.text, reference@) is None && e is UrlParseError,
            },
    {
        match join_url(self.text.as_str(), reference) {
            Ok(a) => Ok(a),
            Err(e) => Err(Error::UrlParseError(e)),
        }
    }

    /// The serialisation of the address. It is the text of an address
    /// that was parsed, with the scheme, domain and path that go with it.
    pub fn as_str(&self) -> (r: &str)
        ensures
            r@ == self@.text,
            is_parsed(self@),
    {
        proof {
            use_type_invariant(self);
        }
        self.text.as_str()
    }

    /// The scheme, lower-cased, without the `:`.
    pub fn scheme(&self) -> (r: &str)
        ensures
            r@ == self@.scheme,
    {
        self.scheme.as_str()
    }

    /// The host, where it is a domain name and not an IP address.
    pub fn domain(&self) -> (r: Option<&str>)
        ensures
            match r {
                Some(d) => self@.domain == Some(d@),
                None => self@.domain is None,
            },
    {
        match &self.domain {
            Some(d) => Some(d.as_str()),
            None => None,
        }
    }

    /// The path, percent-encoded.
    pub fn path(&self) -> (r: &str)
        ensures
            r@ == self@.path,
    {
        self.path.as_str()
    }

    /// Whether the scheme is `http` or `https`.
    pub fn is_http(&self) -> (r: bool)
        ensures
            r == is_http(self@.scheme),
    {
        let http = "http".to_owned();
        let https = "https".to_owned();
        self.scheme == http || self.scheme == https
    }

    /// The last segment of the path, if the path has segments.
    pub fn last_segment(&self) -> (r: Option<Vec<char>>)
        ensures
            match r {
                Some(s) => last_segment(self@.path) == Some(s@),
                None => last_segment(self@.path) is None,
            },
    {
        let path = chars_of(self.path.as_str());
        if path.len() == 0 || path[0] != '/' {
            return None;
        }
        let ghost rest = path@.skip(1);
        let mut i: usize = path.len();
        assert(rest.take(i - 1) =~= rest);
        while i > 1 && path[i - 1] != '/'
            invariant
                1 <= i <= path.len(),
                rest == path@.skip(1),
                after_last(rest, '/') == after_last(rest.take(i - 1), '/') + rest.skip(i - 1),
            decreases i,
        {
            assert(rest.take(i - 1).drop_last() =~= rest.take(i - 2));
            i -= 1;
        }
        Some(slice_of(&path, i, path.len()))
    }
}

} // verus!
