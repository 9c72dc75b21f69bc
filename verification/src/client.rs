//! The decisions of the HTTP client that do not need the network: the base
//! URL and endpoint URLs, the API key header, and the mapping of an error
//! response to an [`ElevenLabsError`].

use vstd::prelude::*;

use crate::error::ElevenLabsError;

verus! {

#[verifier::external_type_specification]
#[verifier::external_body]
pub struct ExHeaderValue(http::HeaderValue);

#[verifier::external_type_specification]
#[verifier::external_body]
pub struct ExInvalidHeaderValue(http::header::InvalidHeaderValue);

/// What `url::Url::parse` makes of a text: the serialization of the parsed
/// URL (`Url::as_str`), or nothing when the text does not parse.
pub uninterp spec fn url_parsed(input: Seq<char>) -> Option<Seq<char>>;

/// What `url::Url::join` makes of the URL that `base` parses to and a
/// reference `input`: the serialization of the joined URL, or nothing when
/// either step fails.
pub uninterp spec fn url_joined(base: Seq<char>, input: Seq<char>) -> Option<Seq<char>>;

/// The bytes an `http::HeaderValue` holds (`HeaderValue::as_bytes`).
pub uninterp spec fn header_value_bytes(v: http::HeaderValue) -> Seq<u8>;

/// Whether an `http::HeaderValue` is marked sensitive
/// (`HeaderValue::is_sensitive`).
pub uninterp spec fn header_value_sensitive(v: http::HeaderValue) -> bool;

/// The reason phrase that `http::StatusCode::canonical_reason` gives for a
/// status code.
pub uninterp spec fn canonical_reason_of(status: u16) -> Option<Seq<char>>;

/// `url::Url::parse`, the result given by its serialization: the contract
/// claims that the outcome is a function of the input text.
#[verifier::external_body]
fn url_parse(input: &str) -> (r: Result<String, url::ParseError>)
    ensures
        match url_parsed(input@) {
            Some(t) => r matches Ok(s) && s@ == t,
            None => r is Err,
        },
{
    match url::Url::parse(input) {
        Ok(u) => Ok(u.as_str().to_owned()),
        Err(e) => Err(e),
    }
}

/// `url::Url::join` on the URL that `base` parses to, the result given by
/// its serialization: the contract claims that the outcome is a function of
/// the two texts.
#[verifier::external_body]
fn url_join(base: &str, input: &str) -> (r: Result<String, url::ParseError>)
    ensures
        match url_joined(base@, input@) {
            Some(t) => r matches Ok(s) && s@ == t,
            None => r is Err,
        },
{
    let parsed = url::Url::parse(base)?;
    match parsed.join(input) {
        Ok(u) => Ok(u.as_str().to_owned()),
        Err(e) => Err(e),
    }
}

/// `http::StatusCode::from_u16` followed by `canonical_reason`: the claim is
/// that the phrase is the named function of the code, and that codes outside
/// 100..=999 (which `from_u16` refuses) have none.
#[verifier::external_body]
fn canonical_reason(status: u16) -> (r: Option<&'static str>)
    ensures
        r matches Some(s) ==> canonical_reason_of(status) == Some(s@),
        r is None ==> canonical_reason_of(status) is None,
        !(100 <= status && status <= 999) ==> r is None,
{
    match http::StatusCode::from_u16(status) {
        Ok(code) => code.canonical_reason(),
        Err(_) => None,
    }
}

/// A byte that `http::HeaderValue` accepts: visible ASCII, space, tab, or
/// any byte from 0x80 up.
pub open spec fn header_byte_allowed(b: u8) -> bool {
    (b >= 32 && b != 127) || b == 9
}

/// Whether every byte of the text is allowed in a header value.
pub open spec fn header_text_allowed(s: Seq<u8>) -> bool {
    forall|i: int| 0 <= i < s.len() ==> header_byte_allowed(#[trigger] s[i])
}

/// `http::HeaderValue::from_str`: succeeds exactly when every byte of the
/// text is allowed (`is_valid` in the crate's source); the value then holds
/// the text's bytes and is not marked sensitive (`try_from_generic`).
#[verifier::external_body]
fn header_value_from_str(s: &str) -> (r: Result<http::HeaderValue, http::header::InvalidHeaderValue>)
    ensures
        r is Ok <==> header_text_allowed(vstd::utf8::encode_utf8(s@)),
        r matches Ok(v) ==> header_value_bytes(v) == vstd::utf8::encode_utf8(s@)
            && !header_value_sensitive(v),
{
    http::HeaderValue::from_str(s)
}

/// `Display` of `http::header::InvalidHeaderValue`, a fixed text in the
/// crate's source.
#[verifier::external_body]
fn invalid_header_value_text(e: &http::header::InvalidHeaderValue) -> (t: String)
    ensures
        t@ == "failed to parse header value"@,
{
    format!("{e}")
}

/// `http::HeaderValue::set_sensitive(true)`: sets the flag and leaves the
/// bytes as they were.
#[verifier::external_body]
fn mark_sensitive(v: &mut http::HeaderValue)
    ensures
        header_value_bytes(*final(v)) == header_value_bytes(*old(v)),
        header_value_sensitive(*final(v)),
{
    v.set_sensitive(true)
}

/// Parses the configured base URL and gives its serialization.
///
/// Fails with [`ElevenLabsError::InvalidUrl`] exactly when `url` refuses it.
pub fn parse_base_url(base_url: &str) -> (r: Result<String, ElevenLabsError>)
    ensures
        match url_parsed(base_url@) {
            Some(t) => r matches Ok(s) && s@ == t,
            None => r matches Err(e) && e is InvalidUrl,
        },
{
    match url_parse(base_url) {
        Ok(u) => Ok(u),
        Err(e) => Err(ElevenLabsError::InvalidUrl(e)),
    }
}

/// The full URL of an endpoint: `path` joined onto the base URL (given by
/// its serialization).
///
/// Fails with [`ElevenLabsError::InvalidUrl`] exactly when the join fails.
pub fn endpoint_url(base: &str, path: &str) -> (r: Result<String, ElevenLabsError>)
    ensures
        match url_joined(base@, path@) {
            Some(t) => r matches Ok(s) && s@ == t,
            None => r matches Err(e) && e is InvalidUrl,
        },
{
    match url_join(base, path) {
        Ok(u) => Ok(u),
        Err(e) => Err(ElevenLabsError::InvalidUrl(e)),
    }
}

/// The `xi-api-key` header value for an API key, marked sensitive.
///
/// Fails with a validation error exactly when the key holds a byte that a
/// header value cannot hold (a control character other than tab, or DEL).
pub fn api_key_header(api_key: &str) -> (r: Result<http::HeaderValue, ElevenLabsError>)
    ensures
        r is Ok <==> header_text_allowed(vstd::utf8::encode_utf8(api_key@)),
        r matches Ok(v) ==> header_value_bytes(v) == vstd::utf8::encode_utf8(api_key@)
            && header_value_sensitive(v),
        r matches Err(e) ==> (e matches ElevenLabsError::Validation(m) && m@
            == "invalid API key header value: "@ + "failed to parse header value"@),
{
    match header_value_from_str(api_key) {
        Ok(v) => {
            let mut v = v;
            mark_sensitive(&mut v);
            Ok(v)
        },
        Err(e) => {
            let mut m = "invalid API key header value: ".to_owned();
            let detail = invalid_header_value_text(&e);
            m.append(detail.as_str());
            Err(ElevenLabsError::Validation(m))
        },
    }
}

/// A 2xx status.
pub open spec fn is_success_status(status: u16) -> bool {
    200 <= status && status <= 299
}

/// The message used for an API error: the message the body carried, else
/// the status's reason phrase, else `Unknown error`.
pub open spec fn api_message_with(detail: Option<Seq<char>>, reason: Option<Seq<char>>) -> Seq<char> {
    match detail {
        Some(d) => d,
        None => match reason {
            Some(r) => r,
            None => "Unknown error"@,
        },
    }
}

/// The message used for a 401: the message the body carried, else a fixed
/// one.
pub open spec fn auth_message_spec(detail: Option<Seq<char>>) -> Seq<char> {
    match detail {
        Some(d) => d,
        None => "invalid or missing API key"@,
    }
}

/// The outcome of a response with this status, `Retry-After` seconds, body,
/// message from the body, and reason phrase:
///
/// * a 2xx status passes;
/// * 401 gives [`ElevenLabsError::Auth`] with the body's message, or
///   `invalid or missing API key`;
/// * 429 gives [`ElevenLabsError::RateLimited`] with the `Retry-After` seconds;
/// * any other status gives [`ElevenLabsError::Api`] with the code, the
///   body's message or else the reason phrase or else `Unknown error`, and
///   the body when it is not empty.
pub open spec fn status_outcome_ok(
    r: Result<(), ElevenLabsError>,
    status: u16,
    retry_after: Option<u64>,
    body: Seq<char>,
    detail: Option<Seq<char>>,
    reason: Option<Seq<char>>,
) -> bool {
    &&& (r is Ok <==> is_success_status(status))
    &&& (!is_success_status(status) && status == 401 ==> (r matches Err(ElevenLabsError::Auth(m))
        && m@ == auth_message_spec(detail)))
    &&& (!is_success_status(status) && status == 429 ==> (r matches Err(
        ElevenLabsError::RateLimited { retry_after: ra },
    ) && ra == retry_after))
    &&& (!is_success_status(status) && status != 401 && status != 429 ==> (r matches Err(
        ElevenLabsError::Api { status: s, message, body: b },
    ) && s == status && message@ == api_message_with(detail, reason) && (body.len() == 0
        ==> b is None) && (body.len() > 0 ==> (b matches Some(t) && t@ == body))))
}

/// Law: a 2xx status passes and nothing else does; a 401 becomes an
/// authentication error with the body's message or, without one,
/// `invalid or missing API key`; a 429 becomes a rate-limit error with the
/// `Retry-After` seconds; any other status becomes an API error with that
/// status, the body's message (else the reason phrase, else
/// `Unknown error`) and the body, kept exactly when it is not empty.
pub proof fn lemma_status_mapping(
    r: Result<(), ElevenLabsError>,
    status: u16,
    retry_after: Option<u64>,
    body: Seq<char>,
    detail: Option<Seq<char>>,
    reason: Option<Seq<char>>,
)
    requires
        status_outcome_ok(r, status, retry_after, body, detail, reason),
    ensures
        r is Ok <==> 200 <= status <= 299,
        status == 401 ==> (r matches Err(ElevenLabsError::Auth(m)) && m@ == match detail {
            Some(d) => d,
            None => "invalid or missing API key"@,
        }),
        status == 429 ==> r == Err::<(), ElevenLabsError>(ElevenLabsError::RateLimited { retry_after }),
        !(200 <= status <= 299) && status != 401 && status != 429 ==> (r matches Err(
            ElevenLabsError::Api { status: s, message, body: kept },
        ) && s == status && message@ == (if detail is Some {
            detail->0
        } else if reason is Some {
            reason->0
        } else {
            "Unknown error"@
        }) && (kept is Some <==> body.len() > 0) && (kept matches Some(k) ==> k@ == body)),
{
}

/// Maps a response to a result, given the reason phrase of its status (see
/// [`status_outcome_ok`]).
///
/// `detail` is the message that the body's JSON carried under `detail`
/// (either a string or an object with a `message` field), if any.
pub fn check_status_with_reason(
    status: u16,
    retry_after: Option<u64>,
    body: String,
    detail: Option<String>,
    reason: Option<&str>,
) -> (r: Result<(), ElevenLabsError>)
    ensures
        status_outcome_ok(r, status, retry_after, body@, crate::multipart::opt_view(detail), crate::query::opt_str_view(reason)),
{
    if 200 <= status && status <= 299 {
        return Ok(());
    }
    if status == 401 {
        let message = match detail {
            Some(d) => d,
            None => "invalid or missing API key".to_owned(),
        };
        return Err(ElevenLabsError::Auth(message));
    }
    if status == 429 {
        return Err(ElevenLabsError::RateLimited { retry_after });
    }
    let message = match detail {
        Some(d) => d,
        None => match reason {
            Some(phrase) => phrase.to_owned(),
            None => "Unknown error".to_owned(),
        },
    };
    let kept = if body.as_str().is_empty() {
        None
    } else {
        Some(body)
    };
    Err(ElevenLabsError::Api { status, message, body: kept })
}

/// Checks an HTTP response status and maps an error response to an
/// [`ElevenLabsError`], the reason phrase being the standard one of the
/// status (see [`status_outcome_ok`]).
pub fn check_status(status: u16, retry_after: Option<u64>, body: String, detail: Option<String>) -> (r: Result<(), ElevenLabsError>)
    ensures
        status_outcome_ok(
            r,
            status,
            retry_after,
            body@,
            crate::multipart::opt_view(detail),
            canonical_reason_of(status),
        ),
{
    let reason = canonical_reason(status);
    check_status_with_reason(status, retry_after, body, detail, reason)
}

} // verus!
