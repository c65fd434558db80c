//! An HTTP error that may also carry the response body.

use vstd::prelude::*;
use vstd::string::*;

use crate::outside::{
    byte_string_literal, bytes_content, error_text, error_with_url, error_without_url,
    render_bytes, render_error, url_of, without_url_of,
};

verus! {

/// The text of an error made of `inner` and `body`: the text of `inner`, then
/// the body as a byte string, or the error met while reading it; nothing more
/// when no body was read.
pub open spec fn rendered(
    inner: reqwest::Error,
    body: Option<Result<bytes::Bytes, reqwest::Error>>,
) -> Seq<char> {
    error_text(inner) + match body {
        None => Seq::empty(),
        Some(Ok(b)) => ", body: "@ + byte_string_literal(bytes_content(b)),
        Some(Err(e)) => ", error reading body: "@ + error_text(e),
    }
}

/// Writes the text of an error made of `inner` and `body`.
pub fn render_parts(
    inner: &reqwest::Error,
    body: &Option<Result<bytes::Bytes, reqwest::Error>>,
) -> (r: String)
    ensures
        r@ == rendered(*inner, *body),
{
    let mut text = render_error(inner);
    match body {
        None => {},
        Some(Ok(b)) => {
            text.append(", body: ");
            let bytes_text = render_bytes(b);
            text.append(bytes_text.as_str());
        },
        Some(Err(e)) => {
            text.append(", error reading body: ");
            let error_text = render_error(e);
            text.append(error_text.as_str());
        },
    }
    text
}

/// A `reqwest::Error` that may also hold the outcome of reading the response
/// body: the bytes read, or the error that reading them met.
#[derive(Debug)]
pub struct ErrorWithBody {
    inner: reqwest::Error,
    body: Option<Result<bytes::Bytes, reqwest::Error>>,
}

impl ErrorWithBody {
    /// The underlying reqwest error.
    pub closed spec fn inner_error(&self) -> reqwest::Error {
        self.inner
    }

    /// The outcome of reading the body, if it was read.
    pub closed spec fn body_outcome(&self) -> Option<Result<bytes::Bytes, reqwest::Error>> {
        self.body
    }

    /// The text of this error.
    pub open spec fn text(&self) -> Seq<char> {
        rendered(self.inner_error(), self.body_outcome())
    }

    /// An error for a failed status, with the outcome of reading the body.
    pub fn from_status_error(inner: reqwest::Error, body: Result<bytes::Bytes, reqwest::Error>) -> (r: Self)
        ensures
            r.inner_error() == inner,
            r.body_outcome() == Some(body),
    {
        ErrorWithBody { inner, body: Some(body) }
    }

    /// Get a reference to the inner `reqwest::Error`.
    pub fn inner(&self) -> (r: &reqwest::Error)
        ensures
            *r == self.inner_error(),
    {
        &self.inner
    }

    /// Get a mutable reference to the inner `reqwest::Error`.
    pub fn inner_mut(&mut self) -> (r: &mut reqwest::Error)
        ensures
            *r == old(self).inner_error(),
            final(self).inner_error() == *final(r),
            final(self).body_outcome() == old(self).body_outcome(),
    {
        &mut self.inner
    }

    /// Consume the error, returning the inner `reqwest::Error`.
    pub fn into_inner(self) -> (r: reqwest::Error)
        ensures
            r == self.inner_error(),
    {
        self.inner
    }

    /// Get a reference to the outcome of reading the body, if it was read.
    pub fn body(&self) -> (r: Option<&Result<bytes::Bytes, reqwest::Error>>)
        ensures
            r matches Some(b) ==> self.body_outcome() == Some(*b),
            r is None <==> self.body_outcome() is None,
    {
        self.body.as_ref()
    }

    /// Get a mutable reference to the outcome of reading the body, if it was
    /// read.
    pub fn body_mut(&mut self) -> (r: Option<&mut Result<bytes::Bytes, reqwest::Error>>)
        ensures
            r is None <==> old(self).body_outcome() is None,
            r matches Some(b) ==> {
                &&& old(self).body_outcome() == Some(*b)
                &&& final(self).body_outcome() == Some(*final(b))
            },
            r is None ==> final(self).body_outcome() is None,
            final(self).inner_error() == old(self).inner_error(),
    {
        match &mut self.body {
            Some(b) => Some(b),
            None => None,
        }
    }

    /// Consume the error, returning the outcome of reading the body, if it was
    /// read.
    pub fn into_body(self) -> (r: Option<Result<bytes::Bytes, reqwest::Error>>)
        ensures
            r == self.body_outcome(),
    {
        self.body
    }

    /// Consume the error, returning both the inner `reqwest::Error` and the
    /// outcome of reading the body.
    pub fn into_parts(self) -> (r: (reqwest::Error, Option<Result<bytes::Bytes, reqwest::Error>>))
        ensures
            r.0 == self.inner_error(),
            r.1 == self.body_outcome(),
    {
        (self.inner, self.body)
    }

    /// Whether `r` is `self` with `url` as its URL: every other part of the
    /// inner error, and the body, are kept.
    pub open spec fn attaches_url(&self, url: reqwest::Url, r: Self) -> bool {
        &&& url_of(r.inner_error()) == Some(url)
        &&& without_url_of(r.inner_error()) == without_url_of(self.inner_error())
        &&& r.body_outcome() == self.body_outcome()
    }

    /// Whether `r` is `self` without a URL: every other part of the inner
    /// error, and the body, are kept.
    pub open spec fn strips_url(&self, r: Self) -> bool {
        &&& r.inner_error() == without_url_of(self.inner_error())
        &&& url_of(r.inner_error()) is None
        &&& (url_of(self.inner_error()) is None ==> r == *self)
        &&& r.body_outcome() == self.body_outcome()
    }

    /// Add a URL related to this error, overwriting any earlier one.
    pub fn with_url(self, url: reqwest::Url) -> (r: Self)
        ensures
            self.attaches_url(url, r),
    {
        ErrorWithBody { inner: error_with_url(self.inner, url), body: self.body }
    }

    /// Strip the URL related to this error, for instance where it holds
    /// sensitive information.
    pub fn without_url(self) -> (r: Self)
        ensures
            self.strips_url(r),
    {
        ErrorWithBody { inner: error_without_url(self.inner), body: self.body }
    }

    /// The text of this error: that of the inner error, then the body or the
    /// error met while reading it.
    pub fn to_string(&self) -> (r: String)
        ensures
            r@ == self.text(),
    {
        render_parts(&self.inner, &self.body)
    }
}

/// The text of an error is that of its two parts: taking them apart and
/// writing the text from them gives the same text.
pub proof fn text_from_parts(e: ErrorWithBody, parts: (reqwest::Error, Option<Result<bytes::Bytes, reqwest::Error>>))
    requires
        parts.0 == e.inner_error(),
        parts.1 == e.body_outcome(),
    ensures
        rendered(parts.0, parts.1) == e.text(),
{
}

/// Attaching a URL and then stripping it gives the same error, and the same
/// text, as stripping the URL alone; for an error that had no URL, that is the
/// error itself.
pub proof fn url_attach_then_strip(
    e: ErrorWithBody,
    url: reqwest::Url,
    attached: ErrorWithBody,
    restored: ErrorWithBody,
    stripped: ErrorWithBody,
)
    requires
        e.attaches_url(url, attached),
        attached.strips_url(restored),
        e.strips_url(stripped),
    ensures
        restored == stripped,
        restored.text() == stripped.text(),
        url_of(e.inner_error()) is None ==> restored == e && restored.text() == e.text(),
{
}

impl From<reqwest::Error> for ErrorWithBody {
    /// An error with no body, as for an error met before any body was read.
    fn from(err: reqwest::Error) -> (r: Self)
        ensures
            r.inner_error() == err,
            r.body_outcome() is None,
    {
        ErrorWithBody { inner: err, body: None }
    }
}

impl vstd::std_specs::convert::FromSpecImpl<reqwest::Error> for ErrorWithBody {
    open spec fn obeys_from_spec() -> bool {
        true
    }

    closed spec fn from_spec(err: reqwest::Error) -> Self {
        ErrorWithBody { inner: err, body: None }
    }
}

} // verus!
