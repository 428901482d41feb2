//! Error types returned by the library, and how an API error is read from a
//! non-2xx response.

use vstd::prelude::*;
use crate::text::{lossy_utf8, strip_both, trim, utf8_lossy, ws};

verus! {

/// All errors surfaced by the client.
#[derive(Debug)]
pub enum Error {
    /// The API responded with a non-2xx status.
    Api(ApiError),
    /// The HTTP transport itself failed.
    Http(String),
    /// JSON encoding or decoding failed.
    Json(String),
    /// The supplied URL was invalid.
    Url(String),
    /// A local file operation failed.
    Io(String),
    /// Caller supplied invalid input to a helper.
    InvalidInput(String),
    /// A streaming response could not be parsed.
    Stream(String),
    /// Catch-all for other error conditions.
    Other(String),
}

impl Error {
    /// Construct an [`Error::InvalidInput`].
    pub fn invalid_input(msg: String) -> (r: Self)
        ensures
            r == Error::InvalidInput(msg),
    {
        Error::InvalidInput(msg)
    }
}

/// API error returned when the server responds with a non-2xx status.
#[derive(Debug)]
pub struct ApiError {
    /// HTTP status code returned by the API.
    pub status: u16,
    /// Best-effort human readable message extracted from the body.
    pub message: String,
    /// Raw response body bytes.
    pub body: Vec<u8>,
    /// Response headers, names lowercased.
    pub headers: Vec<(String, String)>,
}

/// Longest fallback message, in characters, taken from a non-JSON body.
pub const MAX_FALLBACK_MESSAGE_CHARS: usize = 512;

/// The fields of a JSON error body that carry a message. The body is read
/// into this shape by the JSON deserializer; a body that does not read as
/// one counts as no error body at all.
#[derive(Debug, Default)]
pub struct ErrorBody {
    pub error: Option<String>,
    pub message: Option<String>,
    pub detail: Option<String>,
}

/// The message of an error body: `error`, else `message`, else `detail`.
pub open spec fn extracted_message(parsed: Option<ErrorBody>) -> Option<Seq<char>> {
    match parsed {
        None => None,
        Some(b) => match b.error {
            Some(s) => Some(s@),
            None => match b.message {
                Some(s) => Some(s@),
                None => match b.detail {
                    Some(s) => Some(s@),
                    None => None,
                },
            },
        },
    }
}

/// The message of an API error: the extracted message, or else the body read
/// as lossy UTF-8, trimmed, and cut to its first 512 characters.
pub open spec fn api_error_message(body: Seq<u8>, parsed: Option<ErrorBody>) -> Seq<char> {
    match extracted_message(parsed) {
        Some(m) => m,
        None => {
            let t = strip_both(lossy_utf8(body), ws());
            if t.len() <= 512 {
                t
            } else {
                t.take(512)
            }
        },
    }
}

pub open spec fn opt_body(o: Option<&ErrorBody>) -> Option<ErrorBody> {
    match o {
        Some(b) => Some(*b),
        None => None,
    }
}

fn clone_opt_string(o: &Option<String>) -> (r: Option<String>)
    ensures
        r == *o,
{
    match o {
        Some(s) => Some(s.clone()),
        None => None,
    }
}

/// The message of an error body (`None` when the body did not read as one).
pub fn extract_message(parsed: Option<&ErrorBody>) -> (r: Option<String>)
    ensures
        match r {
            Some(m) => extracted_message(opt_body(parsed)) == Some(m@),
            None => extracted_message(opt_body(parsed)) is None,
        },
{
    match parsed {
        None => None,
        Some(b) => match clone_opt_string(&b.error) {
            Some(s) => Some(s),
            None => match clone_opt_string(&b.message) {
                Some(s) => Some(s),
                None => clone_opt_string(&b.detail),
            },
        },
    }
}

/// The first `n` characters of `s`.
fn take_chars(s: &String, n: usize) -> (r: String)
    ensures
        r@ == (if s@.len() <= n {
            s@
        } else {
            s@.take(n as int)
        }),
{
    let cs = crate::text::chars_of(s.as_str());
    if cs.len() <= n {
        crate::text::string_from_chars(&cs)
    } else {
        let mut out: Vec<char> = Vec::new();
        let mut i: usize = 0;
        while i < n
            invariant
                0 <= i <= n,
                n < cs@.len(),
                out@ == cs@.take(i as int),
            decreases n - i,
        {
            out.push(cs[i]);
            proof {
                assert(cs@.take(i as int + 1) =~= cs@.take(i as int).push(cs@[i as int]));
            }
            i = i + 1;
        }
        crate::text::string_from_chars(&out)
    }
}

impl ApiError {
    /// Builds the error for a non-2xx response from its status, headers,
    /// body bytes, and the body parsed as JSON (`None` when it is not JSON).
    pub fn from_parts(
        status: u16,
        headers: Vec<(String, String)>,
        body: Vec<u8>,
        parsed: Option<&ErrorBody>,
    ) -> (r: ApiError)
        ensures
            r.status == status,
            r.headers == headers,
            r.body == body,
            r.message@ == api_error_message(body@, opt_body(parsed)),
    {
        let message = match extract_message(parsed) {
            Some(m) => m,
            None => {
                let lossy = utf8_lossy(body.as_slice());
                let t = trim(lossy.as_str());
                take_chars(&t, MAX_FALLBACK_MESSAGE_CHARS)
            },
        };
        ApiError { status, message, body, headers }
    }
}

/// Whether a status code is in the 2xx range.
pub open spec fn is_success(status: u16) -> bool {
    200 <= status < 300
}

/// Whether a response with this status succeeded (2xx).
pub fn is_success_status(status: u16) -> (r: bool)
    ensures
        r == is_success(status),
{
    200 <= status && status < 300
}

/// Passes a 2xx response's body through and turns any other status into
/// [`Error::Api`].
pub fn ensure_success(
    status: u16,
    headers: Vec<(String, String)>,
    body: Vec<u8>,
    parsed: Option<&ErrorBody>,
) -> (r: Result<Vec<u8>, Error>)
    ensures
        is_success(status) ==> r == Ok::<Vec<u8>, Error>(body),
        !is_success(status) ==> (r matches Err(Error::Api(e)) && e.status == status && e.headers
            == headers && e.body == body && e.message@ == api_error_message(
            body@,
            opt_body(parsed),
        )),
{
    if is_success_status(status) {
        Ok(body)
    } else {
        Err(Error::Api(ApiError::from_parts(status, headers, body, parsed)))
    }
}

} // verus!
