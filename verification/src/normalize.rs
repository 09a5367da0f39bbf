//! Error normalization and panic containment: the outer middleware
//! decisions.
//!
//! Whatever an inner layer produced, every client or server error leaves in
//! the one canonical envelope: a structured body keeps its `message` field,
//! an unstructured one is wrapped verbatim, and non-error responses pass
//! through untouched.  A caught panic becomes a plain 500 envelope.

use vstd::prelude::*;
use crate::errors::HttpError;
use crate::errors::HttpErrorView;

verus! {

/// Whether the raw bytes parse as a JSON document.
pub uninterp spec fn json_wellformed(bytes: Seq<u8>) -> bool;

/// The string under the top-level `message` key of the JSON document the
/// bytes hold, if there is one.
pub uninterp spec fn json_message_of(bytes: Seq<u8>) -> Option<Seq<char>>;

/// The lossy UTF-8 decoding of the bytes.
pub uninterp spec fn lossy_of(bytes: Seq<u8>) -> Seq<char>;

/// Relies on `serde_json::from_slice::<Value>`, `Value::get` and
/// `Value::as_str`: whether the bytes parse as JSON, and the string under
/// their top-level `message` key — both functions of the bytes alone.
/// Outer `Some` means the bytes parsed; the inner option is the message.
#[verifier::external_body]
fn parse_json_message(bytes: &Vec<u8>) -> (r: Option<Option<String>>)
    ensures
        r is Some <==> json_wellformed(bytes@),
        r matches Some(m) ==> match m {
            Some(s) => json_message_of(bytes@) == Some(s@),
            None => json_message_of(bytes@) is None,
        },
{
    match serde_json::from_slice::<serde_json::Value>(bytes) {
        Ok(v) => Some(v.get("message").and_then(|m| m.as_str()).map(|s| s.to_string())),
        Err(_) => None,
    }
}

/// Relies on `String::from_utf8_lossy`: a deterministic function of the
/// bytes; valid UTF-8 — in particular plain ASCII — decodes to itself.
#[verifier::external_body]
fn body_text(bytes: &Vec<u8>) -> (r: String)
    ensures
        r@ == lossy_of(bytes@),
        (forall|i: int| 0 <= i < bytes@.len() ==> bytes@[i] < 128) ==> r@ == bytes@.map_values(
            |b: u8| b as char,
        ),
{
    String::from_utf8_lossy(bytes).to_string()
}

/// Whether a status code marks a client (4xx) or server (5xx) error.
pub open spec fn is_error_status(status: u16) -> bool {
    400 <= status < 600
}

/// The message of the normalized envelope for an error body: the `message`
/// field of a structured body, a placeholder when the structure has none,
/// the text itself when the body is unstructured.
pub open spec fn spec_normalized_message(bytes: Seq<u8>) -> Seq<char> {
    if json_wellformed(bytes) {
        match json_message_of(bytes) {
            Some(m) => m,
            None => "Unknown server error"@,
        }
    } else {
        lossy_of(bytes)
    }
}

/// The error-normalization decision on one outgoing response: a non-error
/// status passes through (`None`); an error status is re-emitted as the
/// canonical envelope built from the response's body.
pub fn normalize_response(status: u16, body: &Vec<u8>) -> (r: Option<HttpError>)
    ensures
        !is_error_status(status) ==> r is None,
        is_error_status(status) ==> (r matches Some(e) && e@ == (HttpErrorView {
            status,
            message: spec_normalized_message(body@),
            errors: None,
        })),
{
    if status < 400 || status >= 600 {
        return None;
    }
    match parse_json_message(body) {
        Some(Some(m)) => Some(HttpError::new(status, m)),
        Some(None) => Some(HttpError::new(status, "Unknown server error".to_owned())),
        None => Some(HttpError::new(status, body_text(body))),
    }
}

/// The response for a fault caught at the containment boundary: always the
/// 500 envelope, carrying the fault's own message when it had one.  The
/// connection survives; the middleware, not the fault, produces the
/// response.
pub fn contain_panic(message: Option<String>) -> (r: HttpError)
    ensures
        r@.status == 500,
        r@.errors is None,
        match message {
            Some(m) => r@.message == m@,
            None => r@.message == "Internal Server Error"@,
        },
{
    match message {
        Some(m) => HttpError::server_error(m),
        None => HttpError::server_error("Internal Server Error".to_owned()),
    }
}

/// The fallback for a path no route matches.
pub fn not_found_error() -> (r: HttpError)
    ensures
        r@ == (HttpErrorView { status: 404, message: "Not Found"@, errors: None }),
{
    HttpError::not_found("Not Found".to_owned())
}

/// The fallback for a known path hit with an unregistered method.
pub fn method_not_allowed_error() -> (r: HttpError)
    ensures
        r@ == (HttpErrorView { status: 405, message: "Method not allowed"@, errors: None }),
{
    HttpError::new(405, "Method not allowed".to_owned())
}

/// The error-normalization middleware: configuration-free, outermost in
/// the chain.
pub struct GlobalErrorLayer;

impl GlobalErrorLayer {
    pub fn new() -> GlobalErrorLayer {
        GlobalErrorLayer
    }
}

/// The normalization middleware wrapped around an inner service.
pub struct GlobalErrorService<S>(pub S);

} // verus!
