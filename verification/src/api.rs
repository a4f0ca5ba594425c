//! The TypeWhisper recorder API: the session records it answers with, the
//! errors a request can end in, and the requests the client sends.
//!
//! The HTTP transport itself lives with the program; this module holds
//! what the client decides: which URL and header it sends, and how an
//! HTTP failure becomes an [`ApiError`].
use crate::discovery::{discovery_error_text, DiscoveryError};
use crate::text::{dec, push_decimal};
use serde_json::Value;
use vstd::prelude::*;

verus! {

/// A request to the recorder API.
pub enum ApiCall {
    /// `POST /v1/recorder/start`.
    Start,
    /// `POST /v1/recorder/stop`.
    Stop,
    /// `GET /v1/recorder/session` for the session with this id.
    Session(Seq<char>),
}

/// `log` with `call` appended, where there is a log.
pub open spec fn logged(log: Option<Seq<ApiCall>>, call: ApiCall) -> Option<Seq<ApiCall>> {
    match log {
        Some(calls) => Some(calls.push(call)),
        None => None,
    }
}

/// The recorder operations the engine drives. Implementations talk to
/// TypeWhisper (or, in tests, replay canned answers); nothing is promised
/// of what they return.
///
/// An implementation may keep a record of the requests it was sent
/// (`request_log`); each operation then appends its own request to it.
/// One that keeps none leaves it `None`.
pub trait Api: Send + Sync {
    /// The requests sent so far, oldest first, where the implementation
    /// keeps a record of them.
    open spec fn request_log(&self) -> Option<Seq<ApiCall>> {
        None
    }

    /// `POST /v1/recorder/start?mic=true&system_audio=false`.
    fn start(&mut self) -> (r: Result<RecorderSession, ApiError>)
        ensures
            final(self).request_log() == logged(old(self).request_log(), ApiCall::Start),
    ;

    /// `POST /v1/recorder/stop`.
    fn stop(&mut self) -> (r: Result<RecorderSession, ApiError>)
        ensures
            final(self).request_log() == logged(old(self).request_log(), ApiCall::Stop),
    ;

    /// `GET /v1/recorder/session?id=<id>`.
    fn session(&mut self, id: &str) -> (r: Result<RecorderSession, ApiError>)
        ensures
            final(self).request_log() == logged(old(self).request_log(), ApiCall::Session(id@)),
    ;
}

/// A recorder session as TypeWhisper reports it.
#[derive(Debug, Clone, PartialEq)]
pub struct RecorderSession {
    pub id: String,
    pub status: SessionStatus,
    pub text: Option<String>,
    pub output_file: Option<String>,
    pub error: Option<String>,
}

/// Where a session is in `recording -> finalizing -> completed | failed`.
#[derive(Debug, Clone, Copy, PartialEq, Eq, Structural)]
pub enum SessionStatus {
    Recording,
    Finalizing,
    Completed,
    Failed,
}

/// How a request to TypeWhisper failed.
#[derive(Debug)]
pub enum ApiError {
    /// The API could not be reached.
    Unavailable(String),
    /// The API rejected the token (HTTP 401).
    Unauthorized,
    /// Any other HTTP error status, with the server's message.
    Http { status: u16, message: String },
    /// The answer was not a session record.
    InvalidResponse(String),
}

/// The human-readable text of an error.
pub open spec fn api_error_text(e: ApiError) -> Seq<char> {
    match e {
        ApiError::Unavailable(m) => "TypeWhisper API unavailable: "@ + m@,
        ApiError::Unauthorized => "TypeWhisper API token rejected (401)"@,
        ApiError::Http { status, message } => "TypeWhisper HTTP "@ + dec(status as nat) + ": "@
            + message@,
        ApiError::InvalidResponse(m) => "invalid TypeWhisper response: "@ + m@,
    }
}

impl ApiError {
    /// The human-readable text of the error.
    pub fn describe(&self) -> (s: String)
        ensures
            s@ == api_error_text(*self),
    {
        proof {
            reveal_strlit("TypeWhisper API unavailable: ");
            reveal_strlit("TypeWhisper API token rejected (401)");
            reveal_strlit("TypeWhisper HTTP ");
            reveal_strlit(": ");
            reveal_strlit("invalid TypeWhisper response: ");
        }
        let mut s = String::new();
        match self {
            ApiError::Unavailable(m) => {
                s.push_str("TypeWhisper API unavailable: ");
                s.push_str(m.as_str());
            },
            ApiError::Unauthorized => {
                s.push_str("TypeWhisper API token rejected (401)");
            },
            ApiError::Http { status, message } => {
                s.push_str("TypeWhisper HTTP ");
                push_decimal(&mut s, *status as u64);
                s.push_str(": ");
                s.push_str(message.as_str());
            },
            ApiError::InvalidResponse(m) => {
                s.push_str("invalid TypeWhisper response: ");
                s.push_str(m.as_str());
            },
        }
        assert(s@ =~= api_error_text(*self));
        s
    }
}

/// `http://127.0.0.1:<port>`: the API listens on the IPv4 loopback only.
pub open spec fn base_url_text(port: u16) -> Seq<char> {
    "http://127.0.0.1:"@ + dec(port as nat)
}

/// The base URL of the API on `port`.
pub fn base_url(port: u16) -> (s: String)
    ensures
        s@ == base_url_text(port),
{
    proof {
        reveal_strlit("http://127.0.0.1:");
    }
    let mut s = String::new();
    s.push_str("http://127.0.0.1:");
    push_decimal(&mut s, port as u64);
    assert(s@ =~= base_url_text(port));
    s
}

/// `base` followed by `path`.
pub fn request_url(base: &str, path: &str) -> (s: String)
    ensures
        s@ == base@ + path@,
{
    let mut s = String::new();
    s.push_str(base);
    s.push_str(path);
    assert(s@ =~= base@ + path@);
    s
}

/// The path that starts a microphone-only recording.
pub fn start_path() -> (s: String)
    ensures
        s@ == "/v1/recorder/start?mic=true&system_audio=false"@,
{
    let mut s = String::new();
    s.push_str("/v1/recorder/start?mic=true&system_audio=false");
    s
}

/// The path that stops the recording.
pub fn stop_path() -> (s: String)
    ensures
        s@ == "/v1/recorder/stop"@,
{
    let mut s = String::new();
    s.push_str("/v1/recorder/stop");
    s
}

/// The path that polls session `id`; the id is sent as given.
pub fn session_path(id: &str) -> (s: String)
    ensures
        s@ == "/v1/recorder/session?id="@ + id@,
{
    let mut s = String::new();
    s.push_str("/v1/recorder/session?id=");
    s.push_str(id);
    s
}

/// The always-public status endpoint on `port`.
pub fn status_url(port: u16) -> (s: String)
    ensures
        s@ == base_url_text(port) + "/v1/status"@,
{
    let mut s = base_url(port);
    s.push_str("/v1/status");
    s
}

/// The `Authorization` header value for `token`.
pub fn bearer(token: &str) -> (s: String)
    ensures
        s@ == "Bearer "@ + token@,
{
    let mut s = String::new();
    s.push_str("Bearer ");
    s.push_str(token);
    s
}

/// The error for an HTTP error `status`: 401 means the token was
/// rejected; any other status carries the server's `error.message` when the
/// body had one, else the status line's reason text.
pub fn status_error(status: u16, body_message: Option<String>, reason: String) -> (e: ApiError)
    ensures
        status == 401 ==> e is Unauthorized,
        status != 401 ==> e == (ApiError::Http {
            status,
            message: match body_message {
                Some(m) => m,
                None => reason,
            },
        }),
{
    if status == 401 {
        ApiError::Unauthorized
    } else {
        let message = match body_message {
            Some(m) => m,
            None => reason,
        };
        ApiError::Http { status, message }
    }
}

/// Whether a request should be sent once more after re-reading the
/// discovery file: only when the token was rejected and the client knows
/// where that file is.
pub fn should_rediscover(result: &Result<RecorderSession, ApiError>, has_discovery_path: bool) -> (b:
    bool)
    ensures
        b == (has_discovery_path && result matches Err(ApiError::Unauthorized)),
{
    match result {
        Err(ApiError::Unauthorized) => has_discovery_path,
        _ => false,
    }
}

/// What a request does after one of its attempts.
#[derive(Debug, Clone, Copy, PartialEq, Eq, Structural)]
pub enum AfterAttempt {
    /// Re-read the discovery file, then send the request once more.
    Rediscover,
    /// The attempt's result is the request's result.
    Finish,
}

/// The step after an attempt that gave `result`; `retried` says whether it
/// was already the second attempt. Only a first attempt whose token was
/// rejected, by a client that knows where the discovery file is, is
/// followed by another, so a request is sent at most twice.
pub fn after_attempt(
    result: &Result<RecorderSession, ApiError>,
    retried: bool,
    has_discovery_path: bool,
) -> (n: AfterAttempt)
    ensures
        n == (if !retried && has_discovery_path && *result matches Err(ApiError::Unauthorized) {
            AfterAttempt::Rediscover
        } else {
            AfterAttempt::Finish
        }),
        retried ==> n == AfterAttempt::Finish,
{
    if !retried && should_rediscover(result, has_discovery_path) {
        AfterAttempt::Rediscover
    } else {
        AfterAttempt::Finish
    }
}

/// The error a request ends in when re-reading the discovery file failed:
/// TypeWhisper counts as unavailable, with the reason.
pub fn rediscovery_failed(error: &DiscoveryError) -> (e: ApiError)
    ensures
        e matches ApiError::Unavailable(m) && m@ == discovery_error_text(*error),
{
    ApiError::Unavailable(error.describe())
}

#[verifier::external_type_specification]
#[verifier::external_body]
pub struct ExValue(Value);

/// The strings a JSON value holds, each under the path of object member
/// names that leads to it (the empty path for a value that is itself a
/// string). Strings inside arrays have no such path and are not counted.
pub uninterp spec fn json_strings(value: Value) -> Map<Seq<Seq<char>>, Seq<char>>;

/// What `serde_json::from_str::<Value>` makes of `text`: `None` where it
/// fails (the text, surrounding whitespace aside, is not one JSON document
/// within the parser's nesting limit), else the strings of the document as
/// `json_strings` counts them. It depends on the text alone.
pub uninterp spec fn json_document(text: Seq<char>) -> Option<Map<Seq<Seq<char>>, Seq<char>>>;

/// The strings of the member `key` of a value whose strings are `strings`.
pub open spec fn member_strings(strings: Map<Seq<Seq<char>>, Seq<char>>, key: Seq<char>) -> Map<
    Seq<Seq<char>>,
    Seq<char>,
> {
    Map::new(
        |path: Seq<Seq<char>>| strings.contains_key(seq![key] + path),
        |path: Seq<Seq<char>>| strings[seq![key] + path],
    )
}

/// `serde_json::from_str::<Value>`, with a parse failure as `None`: fails
/// exactly where `json_document` does, and otherwise gives a value that
/// holds the document's strings.
#[verifier::external_body]
fn json_parse(body: &str) -> (r: Option<Value>)
    ensures
        match json_document(body@) {
            None => r is None,
            Some(strings) => r matches Some(v) && json_strings(v) == strings,
        },
{
    serde_json::from_str::<Value>(body).ok()
}

/// `Value::get` with a string key: the member `key` of a JSON object, or
/// `None` where `value` is no object or has no such member. Either way the
/// strings under `key` in `value` are those of the result, and there are
/// none when it is `None`.
#[verifier::external_body]
fn json_member<'a>(value: &'a Value, key: &str) -> (r: Option<&'a Value>)
    ensures
        match r {
            Some(m) => json_strings(*m) == member_strings(json_strings(*value), key@),
            None => member_strings(json_strings(*value), key@) == Map::<
                Seq<Seq<char>>,
                Seq<char>,
            >::empty(),
        },
{
    value.get(key)
}

/// `Value::as_str`, copied: the text of a JSON string, or `None` for any
/// other value.
#[verifier::external_body]
fn json_text(value: &Value) -> (r: Option<String>)
    ensures
        r is Some <==> json_strings(*value).contains_key(Seq::empty()),
        r matches Some(s) ==> s@ == json_strings(*value)[Seq::empty()],
{
    value.as_str().map(|s| s.to_owned())
}

/// The path of an error response's message: `error.message`.
pub open spec fn message_path() -> Seq<Seq<char>> {
    seq!["error"@, "message"@]
}

/// The `error.message` string of the JSON document `body`, if it is one
/// and has such a string.
pub open spec fn error_message_text(body: Seq<char>) -> Option<Seq<char>> {
    match json_document(body) {
        Some(strings) => if strings.contains_key(message_path()) {
            Some(strings[message_path()])
        } else {
            None
        },
        None => None,
    }
}

/// The `error.message` text of an error response body such as
/// `{"error":{"code":"bad_request","message":"Already recording"}}`, if the
/// body is JSON of that shape.
pub fn error_message(body: &str) -> (r: Option<String>)
    ensures
        match error_message_text(body@) {
            Some(t) => r matches Some(s) && s@ == t,
            None => r is None,
        },
{
    proof {
        reveal_strlit("error");
        reveal_strlit("message");
    }
    let ghost path_in_error: Seq<Seq<char>> = seq!["message"@];
    assert(seq!["error"@] + path_in_error =~= message_path());
    assert(seq!["message"@] + Seq::<Seq<char>>::empty() =~= path_in_error);
    let value = json_parse(body)?;
    let error = match json_member(&value, "error") {
        Some(e) => e,
        None => {
            assert(!member_strings(json_strings(value), "error"@).contains_key(path_in_error));
            return None;
        },
    };
    let message = match json_member(error, "message") {
        Some(m) => m,
        None => {
            assert(!member_strings(json_strings(*error), "message"@).contains_key(Seq::empty()));
            return None;
        },
    };
    json_text(message)
}

} // verus!
