//! Errors that can occur while talking to the HAL API.
use vstd::prelude::*;

use crate::text::{decimal, decimal_u64};

verus! {

/// `reqwest::Error`, a failed HTTP request, carried through unread.
#[verifier::external_type_specification]
#[verifier::external_body]
pub struct ExRequestError(reqwest::Error);

/// `serde_json::Error`, a failed JSON decoding, carried through unread.
#[verifier::external_type_specification]
#[verifier::external_body]
pub struct ExJsonError(serde_json::Error);

/// Errors that can occur while talking to the HAL API.
#[derive(Debug)]
pub enum HalError {
    /// The HTTP request itself failed (network error, timeout, TLS, …).
    Request(reqwest::Error),
    /// The response body could not be decoded into the expected structure.
    Json(serde_json::Error),
    /// The API returned an unexpected HTTP status code.
    Api {
        /// The HTTP status code returned by HAL.
        status: u16,
        /// The (possibly truncated) response body, useful for debugging.
        body: String,
    },
}

/// What `Display` shows of a `reqwest::Error`: the text of its kind, then
/// ` for url (…)` when the error carries a URL. It is a function of the error
/// value alone.
pub uninterp spec fn request_error_display(e: reqwest::Error) -> Seq<char>;

/// The `Display` text of a `reqwest::Error`, named [`request_error_display`].
#[verifier::external_body]
fn request_error_text(err: &reqwest::Error) -> (r: String)
    ensures
        r@ == request_error_display(*err),
{
    format!("{}", err)
}

/// The `Display` text of a `serde_json::Error` (its message with the line and
/// column of the fault). Nothing is claimed of the text: an error that wraps an
/// I/O error shows the operating system's message, which depends on the
/// machine and its locale.
#[verifier::external_body]
fn json_error_text(err: &serde_json::Error) -> String {
    format!("{}", err)
}

/// The fixed text an error message starts with.
pub open spec fn error_prefix(e: HalError) -> Seq<char> {
    match e {
        HalError::Request(_) => "HTTP request error: "@,
        HalError::Json(_) => "JSON decoding error: "@,
        HalError::Api { status, .. } => "HAL API returned status "@ + decimal(status as nat) + ": "@,
    }
}

/// The message of a failed JSON decoding whose own message is `text`.
pub fn json_error_message(text: &str) -> (r: String)
    ensures
        r@ == "JSON decoding error: "@ + text@,
{
    String::from_str("JSON decoding error: ").concat(text)
}

impl HalError {
    /// The human-readable message of the error: a fixed text naming the kind
    /// of failure, then the outside error's own message, or for an API error
    /// the status and the body. For a JSON error the message after the fixed
    /// text is what serde_json shows, which is not stated here (see
    /// [`json_error_message`] for how it is assembled).
    pub fn to_string(&self) -> (r: String)
        ensures
            r@.len() >= error_prefix(*self).len(),
            r@.subrange(0, error_prefix(*self).len() as int) == error_prefix(*self),
            *self matches HalError::Api { body, .. } ==> r@ == error_prefix(*self) + body@,
            *self matches HalError::Request(e) ==> r@ == error_prefix(*self)
                + request_error_display(e),
    {
        match self {
            HalError::Request(err) => {
                let s = String::from_str("HTTP request error: ");
                let r = s.concat(request_error_text(err).as_str());
                assert(r@.subrange(0, error_prefix(*self).len() as int) =~= error_prefix(*self));
                r
            },
            HalError::Json(err) => {
                let text = json_error_text(err);
                let r = json_error_message(text.as_str());
                assert(r@.subrange(0, error_prefix(*self).len() as int) =~= error_prefix(*self));
                r
            },
            HalError::Api { status, body } => {
                let mut s = String::from_str("HAL API returned status ");
                s.append(decimal_u64(*status as u64).as_str());
                s.append(": ");
                let r = s.concat(body.as_str());
                assert(r@.subrange(0, error_prefix(*self).len() as int) =~= error_prefix(*self));
                r
            },
        }
    }
}

impl From<reqwest::Error> for HalError {
    fn from(err: reqwest::Error) -> (r: Self) {
        HalError::Request(err)
    }
}

impl vstd::std_specs::convert::FromSpecImpl<reqwest::Error> for HalError {
    open spec fn obeys_from_spec() -> bool {
        true
    }

    open spec fn from_spec(err: reqwest::Error) -> Self {
        HalError::Request(err)
    }
}

impl From<serde_json::Error> for HalError {
    fn from(err: serde_json::Error) -> (r: Self) {
        HalError::Json(err)
    }
}

impl vstd::std_specs::convert::FromSpecImpl<serde_json::Error> for HalError {
    open spec fn obeys_from_spec() -> bool {
        true
    }

    open spec fn from_spec(err: serde_json::Error) -> Self {
        HalError::Json(err)
    }
}

} // verus!
