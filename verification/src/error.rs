//! Error type of the SDK, its messages, and the mapping of HTTP error
//! responses to it.

use vstd::prelude::*;

use crate::text;
use vstd::std_specs::convert::FromSpecImpl;

verus! {

#[verifier::external_type_specification]
#[verifier::external_body]
pub struct ExUrlParseError(url::ParseError);

#[verifier::external_type_specification]
#[verifier::external_body]
pub struct ExJsonError(serde_json::Error);

/// All possible errors returned by the SDK.
#[derive(Debug)]
pub enum ElevenLabsError {
    /// The API returned an error response.
    Api {
        /// HTTP status code from the API.
        status: u16,
        /// Human-readable error message from the API.
        message: String,
        /// Raw response body, when it was not empty.
        body: Option<String>,
    },
    /// Authentication failed (invalid or missing API key).
    Auth(String),
    /// The request was rate-limited by the API.
    RateLimited {
        /// Number of seconds to wait before retrying, when the API said.
        retry_after: Option<u64>,
    },
    /// The request timed out before a response was received.
    Timeout,
    /// An error occurred at the HTTP transport layer; holds its description.
    Transport(String),
    /// Failed to (de)serialize a JSON body.
    Deserialization(serde_json::Error),
    /// A caller-provided input failed validation.
    Validation(String),
    /// A URL could not be parsed.
    InvalidUrl(url::ParseError),
    /// WebSocket communication error.
    WebSocket(String),
}

/// `Option<u64>` rendered with `{:?}`: `Some(30)` or `None`.
pub open spec fn option_debug_text(o: Option<u64>) -> Seq<char> {
    match o {
        Some(v) => "Some("@ + text::decimal_text(v as nat) + ")"@,
        None => "None"@,
    }
}

/// The message of an error whose text the library fully determines; `None`
/// for the two variants that carry the text of an outside error.
pub open spec fn message_spec(e: ElevenLabsError) -> Option<Seq<char>> {
    match e {
        ElevenLabsError::Api { status, message, .. } => Some(
            "API error (HTTP "@ + text::decimal_text(status as nat) + "): "@ + message@,
        ),
        ElevenLabsError::Auth(m) => Some("Authentication failed: "@ + m@),
        ElevenLabsError::RateLimited { retry_after } => Some(
            "Rate limited (retry after "@ + option_debug_text(retry_after) + "s)"@,
        ),
        ElevenLabsError::Timeout => Some("Request timeout"@),
        ElevenLabsError::Transport(m) => Some("Transport error: "@ + m@),
        ElevenLabsError::Validation(m) => Some("Invalid input: "@ + m@),
        ElevenLabsError::WebSocket(m) => Some("WebSocket error: "@ + m@),
        ElevenLabsError::Deserialization(_) => None,
        ElevenLabsError::InvalidUrl(_) => None,
    }
}

/// The prefix that every message of a variant starts with.
pub open spec fn message_prefix(e: ElevenLabsError) -> Seq<char> {
    match e {
        ElevenLabsError::Deserialization(_) => "Deserialization error: "@,
        ElevenLabsError::InvalidUrl(_) => "Invalid URL: "@,
        _ => seq![],
    }
}

/// `url::ParseError` rendered with its `Display`.
#[verifier::external_body]
fn url_error_text(e: &url::ParseError) -> String {
    format!("{e}")
}

/// `serde_json::Error` rendered with its `Display`.
#[verifier::external_body]
fn json_error_text(e: &serde_json::Error) -> String {
    format!("{e}")
}

fn option_debug_string(o: Option<u64>) -> (s: String)
    ensures
        s@ == option_debug_text(o),
{
    match o {
        Some(v) => {
            let mut s = "Some(".to_owned();
            let digits = text::decimal_string(v);
            s.append(digits.as_str());
            s.append(")");
            s
        },
        None => "None".to_owned(),
    }
}

impl ElevenLabsError {
    /// The human-readable message of the error (what its `Display` would
    /// print).
    pub fn error_text(&self) -> (s: String)
        ensures
            message_spec(*self) matches Some(m) ==> s@ == m,
            message_spec(*self) is None ==> exists|rest: Seq<char>|
                s@ == message_prefix(*self) + rest,
    {
        match self {
            ElevenLabsError::Api { status, message, .. } => {
                let mut s = "API error (HTTP ".to_owned();
                let code = text::decimal_string(*status as u64);
                s.append(code.as_str());
                s.append("): ");
                s.append(message.as_str());
                s
            },
            ElevenLabsError::Auth(m) => {
                let mut s = "Authentication failed: ".to_owned();
                s.append(m.as_str());
                s
            },
            ElevenLabsError::RateLimited { retry_after } => {
                let mut s = "Rate limited (retry after ".to_owned();
                let shown = option_debug_string(*retry_after);
                s.append(shown.as_str());
                s.append("s)");
                s
            },
            ElevenLabsError::Timeout => "Request timeout".to_owned(),
            ElevenLabsError::Transport(m) => {
                let mut s = "Transport error: ".to_owned();
                s.append(m.as_str());
                s
            },
            ElevenLabsError::Deserialization(e) => {
                let mut s = "Deserialization error: ".to_owned();
                let detail = json_error_text(e);
                s.append(detail.as_str());
                assert(s@ == message_prefix(*self) + detail@);
                s
            },
            ElevenLabsError::Validation(m) => {
                let mut s = "Invalid input: ".to_owned();
                s.append(m.as_str());
                s
            },
            ElevenLabsError::InvalidUrl(e) => {
                let mut s = "Invalid URL: ".to_owned();
                let detail = url_error_text(e);
                s.append(detail.as_str());
                assert(s@ == message_prefix(*self) + detail@);
                s
            },
            ElevenLabsError::WebSocket(m) => {
                let mut s = "WebSocket error: ".to_owned();
                s.append(m.as_str());
                s
            },
        }
    }

    /// Whether this is the `InvalidUrl` variant.
    pub fn is_invalid_url(&self) -> (b: bool)
        ensures
            b == (*self is InvalidUrl),
    {
        match self {
            ElevenLabsError::InvalidUrl(_) => true,
            _ => false,
        }
    }
}

impl From<url::ParseError> for ElevenLabsError {
    fn from(e: url::ParseError) -> (r: Self) {
        ElevenLabsError::InvalidUrl(e)
    }
}

impl FromSpecImpl<url::ParseError> for ElevenLabsError {
    open spec fn obeys_from_spec() -> bool {
        true
    }

    open spec fn from_spec(e: url::ParseError) -> Self {
        ElevenLabsError::InvalidUrl(e)
    }
}

impl From<serde_json::Error> for ElevenLabsError {
    fn from(e: serde_json::Error) -> (r: Self) {
        ElevenLabsError::Deserialization(e)
    }
}

impl FromSpecImpl<serde_json::Error> for ElevenLabsError {
    open spec fn obeys_from_spec() -> bool {
        true
    }

    open spec fn from_spec(e: serde_json::Error) -> Self {
        ElevenLabsError::Deserialization(e)
    }
}

} // verus!
