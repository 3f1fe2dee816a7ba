//! The client's error type, its retry classification, and its log-safe renderings.
//!
//! The `Display` and `Debug` texts of `Api` and `Unexpected` never show the server's message,
//! details or body: they are functions of the status, code and request id, and of lengths.
use vstd::prelude::*;
use vstd::string::*;
use vstd::utf8::*;

use serde_json::Error as JsonError;

use crate::render::bool_text;
use crate::text::{
    debug_quoted, decimal, push_decimal, str_debug_text, str_eq,
};

verus! {

/// `serde_json::Value`, carried through as the server's error details.
#[verifier::external_type_specification]
#[verifier::external_body]
pub struct ExJsonValue(serde_json::Value);

/// `serde_json::Error`, carried through as a response that did not decode.
#[verifier::external_type_specification]
#[verifier::external_body]
pub struct ExJsonError(JsonError);

/// What the client reads of a transport failure: whether it timed out or failed to connect,
/// the HTTP status it carries if any, and its `Display` and `Debug` texts.
pub struct HttpError {
    pub is_timeout: bool,
    pub is_connect: bool,
    pub status: Option<u16>,
    pub text: String,
    pub debug_text: String,
}

/// Result of a client operation.
pub type Result<T> = core::result::Result<T, Error>;

/// Client errors.
pub enum Error {
    Config(String),
    Http(HttpError),
    /// Server API failure.
    Api {
        status: u16,
        code: String,
        message: String,
        request_id: String,
        details: Option<serde_json::Value>,
    },
    Unexpected(String),
    InvalidBoxId(String),
    WaitTimeout { box_id: String, last_state: String },
    /// The box entered one of the terminal failure states.
    BoxTerminal { box_id: String, state: String },
    BoxFailed { box_id: String },
    Serde(JsonError),
}

/// When an automatic retry of an idempotent request may help: rate limiting (429), gateway
/// failures (502 to 504), the two transient conflicts `box_starting` and `box_securing`,
/// and transport timeouts or connection failures.
pub open spec fn retryable(e: Error) -> bool {
    match e {
        Error::Api { status, code, .. } => {
            ||| status == 429
            ||| 502 <= status <= 504
            ||| (status == 409 && (code@ == "box_starting"@ || code@ == "box_securing"@))
        },
        Error::Http(h) => h.is_timeout || h.is_connect,
        _ => false,
    }
}

/// Which failures are transient. A transport error is transient exactly when it timed out or
/// failed to connect, whichever of the two; an API error exactly when it is rate limiting
/// (429), a gateway failure (502, 503 or 504), or a 409 whose code is `box_starting` or
/// `box_securing`; no other error is.
pub proof fn lemma_transient_failures(e: Error)
    ensures
        e matches Error::Http(h) ==> (retryable(e) <==> (h.is_timeout || h.is_connect)),
        e matches Error::Http(h) && h.is_connect ==> retryable(e),
        e matches Error::Http(h) && h.is_timeout ==> retryable(e),
        e matches Error::Api { status, code, .. } ==> (retryable(e) <==> (status == 429 || status
            == 502 || status == 503 || status == 504 || (status == 409 && (code@
            == "box_starting"@ || code@ == "box_securing"@)))),
        !(e is Http || e is Api) ==> !retryable(e),
{
}

/// The HTTP status an error carries.
pub open spec fn status_of(e: Error) -> Option<u16> {
    match e {
        Error::Api { status, .. } => Some(status),
        Error::Http(h) => h.status,
        _ => None,
    }
}

/// The `Display` text of an error, for every variant but `Serde` (whose text is the decoder's).
pub open spec fn display_text(e: Error) -> Seq<char> {
    match e {
        Error::Config(m) => "config: "@ + m@,
        Error::Http(h) => "http: "@ + h.text@,
        Error::Api { status, code, request_id, .. } => "api "@ + decimal(status as nat) + ": "@
            + code@ + " (request_id="@ + request_id@ + ")"@,
        Error::Unexpected(_) => "unexpected response (body redacted)"@,
        Error::InvalidBoxId(id) => "invalid box id `"@ + id@ + "` (expected bx_ + 8 chars)"@,
        Error::WaitTimeout { box_id, last_state } => "timeout waiting for box "@ + box_id@
            + " (last state="@ + last_state@ + ")"@,
        Error::BoxTerminal { box_id, state } => "box "@ + box_id@ + " entered terminal state "@
            + state@,
        Error::BoxFailed { box_id } => "box "@ + box_id@ + " entered error state"@,
        Error::Serde(_) => "serde: "@,
    }
}

/// The `Debug` text of an error, for every variant but `Serde` (whose text is the decoder's).
/// `Api` shows the byte length of the message and whether details are present;
/// `Unexpected` shows the byte length of the body.
pub open spec fn debug_text(e: Error) -> Seq<char> {
    match e {
        Error::Config(m) => "Config("@ + str_debug_text(m@) + ")"@,
        Error::Http(h) => "Http("@ + h.debug_text@ + ")"@,
        Error::Api { status, code, message, request_id, details } => "Api { status: "@ + decimal(
            status as nat,
        ) + ", code: "@ + str_debug_text(code@) + ", message_len: "@ + decimal(
            (encode_utf8(message@).len() as usize) as nat,
        ) + ", request_id: "@ + str_debug_text(request_id@) + ", has_details: "@ + bool_text(
            details is Some,
        ) + " }"@,
        Error::Unexpected(body) => "Unexpected { body_len: "@ + decimal(
            (encode_utf8(body@).len() as usize) as nat,
        ) + " }"@,
        Error::InvalidBoxId(id) => "InvalidBoxId("@ + str_debug_text(id@) + ")"@,
        Error::WaitTimeout { box_id, last_state } => "WaitTimeout { box_id: "@ + str_debug_text(
            box_id@,
        ) + ", last_state: "@ + str_debug_text(last_state@) + " }"@,
        Error::BoxTerminal { box_id, state } => "BoxTerminal { box_id: "@ + str_debug_text(
            box_id@,
        ) + ", state: "@ + str_debug_text(state@) + " }"@,
        Error::BoxFailed { box_id } => "BoxFailed { box_id: "@ + str_debug_text(box_id@) + " }"@,
        Error::Serde(_) => "Serde("@,
    }
}

/// `Display` of a `serde_json::Error`.
#[verifier::external_body]
fn json_error_display(e: &JsonError) -> String {
    e.to_string()
}

/// `Debug` of a `serde_json::Error`.
#[verifier::external_body]
fn json_error_debug(e: &JsonError) -> String {
    format!("{:?}", e)
}

fn push_str(s: &mut String, t: &str)
    ensures
        final(s)@ == old(s)@ + t@,
{
    s.append(t);
}

fn push_bool(s: &mut String, b: bool)
    ensures
        final(s)@ == old(s)@ + bool_text(b),
{
    if b {
        s.append("true");
    } else {
        s.append("false");
    }
}

impl Error {
    /// Whether a safe automatic retry of an idempotent request may help.
    ///
    /// Only the known transient 409 codes count; every other 409 does not.
    pub fn is_retryable(&self) -> (r: bool)
        ensures
            r == retryable(*self),
    {
        match self {
            Error::Api { status, code, .. } => {
                if *status == 429 {
                    true
                } else if 502 <= *status && *status <= 504 {
                    true
                } else if *status == 409 {
                    str_eq(code.as_str(), "box_starting") || str_eq(code.as_str(), "box_securing")
                } else {
                    false
                }
            },
            Error::Http(h) => h.is_timeout || h.is_connect,
            _ => false,
        }
    }

    /// The HTTP status of an `Api` error, or the one a transport failure carries.
    pub fn status(&self) -> (r: Option<u16>)
        ensures
            r == status_of(*self),
    {
        match self {
            Error::Api { status, .. } => Some(*status),
            Error::Http(h) => h.status,
            _ => None,
        }
    }

    /// Server-provided API message, if this is an `Api` error.
    pub fn api_message(&self) -> (r: Option<&str>)
        ensures
            match *self {
                Error::Api { message, .. } => r is Some && r->0@ == message@,
                _ => r is None,
            },
    {
        match self {
            Error::Api { message, .. } => Some(message.as_str()),
            _ => None,
        }
    }

    /// Server-provided API details, if present.
    pub fn api_details(&self) -> (r: Option<&serde_json::Value>)
        ensures
            match *self {
                Error::Api { details, .. } => match details {
                    Some(d) => r is Some && *r->0 == d,
                    None => r is None,
                },
                _ => r is None,
            },
    {
        match self {
            Error::Api { details, .. } => match details {
                Some(d) => Some(d),
                None => None,
            },
            _ => None,
        }
    }

    /// Raw unexpected response body, if this is `Unexpected`.
    pub fn unexpected_body(&self) -> (r: Option<&str>)
        ensures
            match *self {
                Error::Unexpected(body) => r is Some && r->0@ == body@,
                _ => r is None,
            },
    {
        match self {
            Error::Unexpected(body) => Some(body.as_str()),
            _ => None,
        }
    }

    /// The `Display` text: log-safe for `Api` and `Unexpected`.
    pub fn display_string(&self) -> (r: String)
        ensures
            !(*self is Serde) ==> r@ == display_text(*self),
            *self is Serde ==> r@.len() >= 7 && r@.take(7) == display_text(*self),
    {
        let mut r = String::new();
        match self {
            Error::Config(m) => {
                push_str(&mut r, "config: ");
                push_str(&mut r, m.as_str());
            },
            Error::Http(h) => {
                push_str(&mut r, "http: ");
                push_str(&mut r, h.text.as_str());
            },
            Error::Api { status, code, request_id, .. } => {
                push_str(&mut r, "api ");
                push_decimal(&mut r, *status as u64);
                push_str(&mut r, ": ");
                push_str(&mut r, code.as_str());
                push_str(&mut r, " (request_id=");
                push_str(&mut r, request_id.as_str());
                push_str(&mut r, ")");
            },
            Error::Unexpected(_) => {
                push_str(&mut r, "unexpected response (body redacted)");
            },
            Error::InvalidBoxId(id) => {
                push_str(&mut r, "invalid box id `");
                push_str(&mut r, id.as_str());
                push_str(&mut r, "` (expected bx_ + 8 chars)");
            },
            Error::WaitTimeout { box_id, last_state } => {
                push_str(&mut r, "timeout waiting for box ");
                push_str(&mut r, box_id.as_str());
                push_str(&mut r, " (last state=");
                push_str(&mut r, last_state.as_str());
                push_str(&mut r, ")");
            },
            Error::BoxTerminal { box_id, state } => {
                push_str(&mut r, "box ");
                push_str(&mut r, box_id.as_str());
                push_str(&mut r, " entered terminal state ");
                push_str(&mut r, state.as_str());
            },
            Error::BoxFailed { box_id } => {
                push_str(&mut r, "box ");
                push_str(&mut r, box_id.as_str());
                push_str(&mut r, " entered error state");
            },
            Error::Serde(e) => {
                proof {
                    reveal_strlit("serde: ");
                }
                push_str(&mut r, "serde: ");
                let t = json_error_display(e);
                let ghost head = r@;
                push_str(&mut r, t.as_str());
                assert(r@.take(7) =~= head);
            },
        }
        assert(!(*self is Serde) ==> r@ =~= display_text(*self));
        r
    }

    /// The `Debug` text: log-safe for `Api` and `Unexpected`.
    pub fn debug_string(&self) -> (r: String)
        ensures
            !(*self is Serde) ==> r@ == debug_text(*self),
            *self is Serde ==> r@.len() >= 6 && r@.take(6) == debug_text(*self),
    {
        let mut r = String::new();
        match self {
            Error::Config(m) => {
                push_str(&mut r, "Config(");
                push_str(&mut r, debug_quoted(m.as_str()).as_str());
                push_str(&mut r, ")");
            },
            Error::Http(h) => {
                push_str(&mut r, "Http(");
                push_str(&mut r, h.debug_text.as_str());
                push_str(&mut r, ")");
            },
            Error::Api { status, code, message, request_id, details } => {
                push_str(&mut r, "Api { status: ");
                push_decimal(&mut r, *status as u64);
                push_str(&mut r, ", code: ");
                push_str(&mut r, debug_quoted(code.as_str()).as_str());
                push_str(&mut r, ", message_len: ");
                push_decimal(&mut r, message.as_str().len() as u64);
                push_str(&mut r, ", request_id: ");
                push_str(&mut r, debug_quoted(request_id.as_str()).as_str());
                push_str(&mut r, ", has_details: ");
                push_bool(&mut r, details.is_some());
                push_str(&mut r, " }");
            },
            Error::Unexpected(body) => {
                push_str(&mut r, "Unexpected { body_len: ");
                push_decimal(&mut r, body.as_str().len() as u64);
                push_str(&mut r, " }");
            },
            Error::InvalidBoxId(id) => {
                push_str(&mut r, "InvalidBoxId(");
                push_str(&mut r, debug_quoted(id.as_str()).as_str());
                push_str(&mut r, ")");
            },
            Error::WaitTimeout { box_id, last_state } => {
                push_str(&mut r, "WaitTimeout { box_id: ");
                push_str(&mut r, debug_quoted(box_id.as_str()).as_str());
                push_str(&mut r, ", last_state: ");
                push_str(&mut r, debug_quoted(last_state.as_str()).as_str());
                push_str(&mut r, " }");
            },
            Error::BoxTerminal { box_id, state } => {
                push_str(&mut r, "BoxTerminal { box_id: ");
                push_str(&mut r, debug_quoted(box_id.as_str()).as_str());
                push_str(&mut r, ", state: ");
                push_str(&mut r, debug_quoted(state.as_str()).as_str());
                push_str(&mut r, " }");
            },
            Error::BoxFailed { box_id } => {
                push_str(&mut r, "BoxFailed { box_id: ");
                push_str(&mut r, debug_quoted(box_id.as_str()).as_str());
                push_str(&mut r, " }");
            },
            Error::Serde(e) => {
                proof {
                    reveal_strlit("Serde(");
                }
                push_str(&mut r, "Serde(");
                let t = json_error_debug(e);
                let ghost head = r@;
                push_str(&mut r, t.as_str());
                push_str(&mut r, ")");
                assert(r@.take(6) =~= head);
            },
        }
        assert(!(*self is Serde) ==> r@ =~= debug_text(*self));
        r
    }
}

/// The `Display` and `Debug` texts of an `Api` error show the status, code and request id,
/// the message's length and whether details exist, and nothing else of them: two such errors
/// that agree on those render alike, whatever their messages and details hold.
pub proof fn lemma_api_renderings_hide_message(a: Error, b: Error)
    requires
        a matches Error::Api { status: s1, code: c1, message: m1, request_id: r1, details: d1 },
        b matches Error::Api { status: s2, code: c2, message: m2, request_id: r2, details: d2 },
        a->Api_status == b->Api_status,
        a->Api_code@ == b->Api_code@,
        a->Api_request_id@ == b->Api_request_id@,
        encode_utf8(a->Api_message@).len() == encode_utf8(b->Api_message@).len(),
        a->Api_details is Some == b->Api_details is Some,
    ensures
        display_text(a) == display_text(b),
        debug_text(a) == debug_text(b),
{
}

/// An `Unexpected` error's `Display` text never shows the body, and its `Debug` text shows
/// only the body's length.
pub proof fn lemma_unexpected_renderings_hide_body(a: Error, b: Error)
    requires
        a matches Error::Unexpected(x),
        b matches Error::Unexpected(y),
        encode_utf8(a->Unexpected_0@).len() == encode_utf8(b->Unexpected_0@).len(),
    ensures
        display_text(a) == display_text(b),
        debug_text(a) == debug_text(b),
{
}

} // verus!
