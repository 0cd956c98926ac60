//! The HAL search client: where it sends requests and how it reads the answer.
use vstd::prelude::*;
use vstd::utf8::{encode_utf8, is_char_boundary};

use crate::error::HalError;

verus! {

/// The default HAL search endpoint.
pub const DEFAULT_BASE_URL: &'static str = "https://api.archives-ouvertes.fr/search/";

/// The longest error body, in bytes, kept in [`HalError::Api`].
pub const MAX_ERROR_BODY: usize = 500;

/// `reqwest::Client`, the reusable HTTP client, carried through unread.
#[verifier::external_type_specification]
#[verifier::external_body]
pub struct ExHttpClient(reqwest::Client);

/// `reqwest::Client::new`: a client with reqwest's default settings. What the
/// client holds (connection pool, root certificates, resolver) is not
/// described, so nothing is claimed of it. With the default configuration and
/// this crate's TLS setup (rustls with bundled roots) building it has no
/// failing path, so its `expect` does not fire.
#[verifier::external_body]
fn new_http_client() -> reqwest::Client {
    reqwest::Client::new()
}

/// `Clone::clone` of `reqwest::Client` (a new handle on the same shared
/// connection pool); nothing is claimed of the copy.
pub assume_specification[ <reqwest::Client as Clone>::clone ](c: &reqwest::Client) -> reqwest::Client;

/// An asynchronous client for the HAL search API: the endpoint it targets and
/// a reusable HTTP client. The requests themselves are sent by the caller.
#[derive(Clone, Debug)]
pub struct HalClient {
    base_url: String,
    http: reqwest::Client,
}

impl View for HalClient {
    /// The base URL the client targets.
    type V = Seq<char>;

    closed spec fn view(&self) -> Seq<char> {
        self.base_url@
    }
}

impl Default for HalClient {
    fn default() -> (r: Self)
        ensures
            r@ == DEFAULT_BASE_URL@,
    {
        Self::new()
    }
}

impl HalClient {
    /// Create a client pointing at the public HAL search endpoint.
    pub fn new() -> (r: Self)
        ensures
            r@ == DEFAULT_BASE_URL@,
    {
        HalClient { base_url: String::from_str(DEFAULT_BASE_URL), http: new_http_client() }
    }

    /// Create a client pointing at a custom base URL (useful for tests or mirrors).
    pub fn with_base_url(base_url: &str) -> (r: Self)
        ensures
            r@ == base_url@,
    {
        HalClient { base_url: String::from_str(base_url), http: new_http_client() }
    }

    /// The base URL this client targets.
    pub fn base_url(&self) -> (r: &str)
        ensures
            r@ == self@,
    {
        self.base_url.as_str()
    }

    /// The HTTP client the requests go through.
    pub closed spec fn http(&self) -> reqwest::Client {
        self.http
    }

    /// The HTTP client the requests go through.
    pub fn http_client(&self) -> (r: &reqwest::Client)
        ensures
            *r == self.http(),
    {
        &self.http
    }
}

/// Whether an HTTP status code is a success (`2xx`).
pub open spec fn success_status(status: u16) -> bool {
    200 <= status < 300
}

/// Whether an HTTP status code is a success (`2xx`), as
/// `http::StatusCode::is_success` decides it.
pub fn is_success(status: u16) -> (r: bool)
    ensures
        r == success_status(status),
{
    200 <= status && status < 300
}

/// The first `n` bytes of `bytes`, or all of them when there are fewer.
pub open spec fn byte_prefix(bytes: Seq<u8>, n: int) -> Seq<u8> {
    if bytes.len() > n {
        bytes.take(n)
    } else {
        bytes
    }
}

/// Whether a failed answer's body can be cut at [`MAX_ERROR_BODY`] bytes:
/// it is short enough, or that byte offset falls between two characters.
pub open spec fn error_body_cuttable(body: Seq<char>) -> bool {
    encode_utf8(body).len() <= MAX_ERROR_BODY || is_char_boundary(
        encode_utf8(body),
        MAX_ERROR_BODY as int,
    )
}

/// How the client reads an answer of the HAL API: the body of a successful
/// (`2xx`) answer is handed on for decoding; any other status is an
/// [`HalError::Api`] that keeps the status and the first 500 bytes of the body.
pub fn api_result(status: u16, body: String) -> (r: Result<String, HalError>)
    requires
        success_status(status) || error_body_cuttable(body@),
    ensures
        success_status(status) ==> (r matches Ok(b) && b@ == body@),
        !success_status(status) ==> (r matches Err(HalError::Api { status: s, body: b }) && s
            == status && encode_utf8(b@) == byte_prefix(encode_utf8(body@), MAX_ERROR_BODY as int)),
{
    if is_success(status) {
        return Ok(body);
    }
    let text = body.as_str();
    if text.is_char_boundary(MAX_ERROR_BODY) {
        let (head, _) = text.split_at(MAX_ERROR_BODY);
        let kept = String::from_str(head);
        proof {
            vstd::utf8::encode_utf8_valid_utf8(body@);
            assert(encode_utf8(body@).len() >= MAX_ERROR_BODY);
            assert(encode_utf8(body@).take(MAX_ERROR_BODY as int) =~= byte_prefix(
                encode_utf8(body@),
                MAX_ERROR_BODY as int,
            ));
        }
        assert(encode_utf8(kept@) =~= encode_utf8(body@).take(MAX_ERROR_BODY as int));
        Err(HalError::Api { status, body: kept })
    } else {
        Err(HalError::Api { status, body })
    }
}

} // verus!
