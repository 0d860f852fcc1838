//! The failures of both servers, and the envelope that carries a reply or a failure.

use vstd::prelude::*;
use crate::json::{entries_view, no_entries, put, Json, JsonValue};

verus! {

/// The kinds of failure that the protocol names.
#[derive(Clone, Copy, Debug, PartialEq, Eq, Structural)]
pub enum ErrorKind {
    InvalidSessionId,
    NoSuchElement,
    NoSuchShadowRoot,
    NoSuchWindow,
    NoSuchCookie,
    NoSuchAlert,
    InvalidArgument,
    SessionNotCreated,
    JavascriptError,
    UnknownError,
}

impl ErrorKind {
    /// The HTTP status that answers a failure of this kind.
    pub open spec fn status_spec(self) -> u16 {
        match self {
            ErrorKind::InvalidSessionId => 404,
            ErrorKind::NoSuchElement => 404,
            ErrorKind::NoSuchShadowRoot => 404,
            ErrorKind::NoSuchWindow => 404,
            ErrorKind::NoSuchCookie => 404,
            ErrorKind::NoSuchAlert => 404,
            ErrorKind::InvalidArgument => 400,
            ErrorKind::SessionNotCreated => 500,
            ErrorKind::JavascriptError => 500,
            ErrorKind::UnknownError => 500,
        }
    }

    /// The name of this kind as the protocol writes it.
    pub open spec fn code_spec(self) -> Seq<char> {
        match self {
            ErrorKind::InvalidSessionId => "invalid session id"@,
            ErrorKind::NoSuchElement => "no such element"@,
            ErrorKind::NoSuchShadowRoot => "no such shadow root"@,
            ErrorKind::NoSuchWindow => "no such window"@,
            ErrorKind::NoSuchCookie => "no such cookie"@,
            ErrorKind::NoSuchAlert => "no such alert"@,
            ErrorKind::InvalidArgument => "invalid argument"@,
            ErrorKind::SessionNotCreated => "session not created"@,
            ErrorKind::JavascriptError => "javascript error"@,
            ErrorKind::UnknownError => "unknown error"@,
        }
    }

    pub fn status(self) -> (status: u16)
        ensures
            status == self.status_spec(),
    {
        match self {
            ErrorKind::InvalidSessionId => 404,
            ErrorKind::NoSuchElement => 404,
            ErrorKind::NoSuchShadowRoot => 404,
            ErrorKind::NoSuchWindow => 404,
            ErrorKind::NoSuchCookie => 404,
            ErrorKind::NoSuchAlert => 404,
            ErrorKind::InvalidArgument => 400,
            ErrorKind::SessionNotCreated => 500,
            ErrorKind::JavascriptError => 500,
            ErrorKind::UnknownError => 500,
        }
    }

    pub fn code(self) -> (code: &'static str)
        ensures
            code@ == self.code_spec(),
    {
        match self {
            ErrorKind::InvalidSessionId => "invalid session id",
            ErrorKind::NoSuchElement => "no such element",
            ErrorKind::NoSuchShadowRoot => "no such shadow root",
            ErrorKind::NoSuchWindow => "no such window",
            ErrorKind::NoSuchCookie => "no such cookie",
            ErrorKind::NoSuchAlert => "no such alert",
            ErrorKind::InvalidArgument => "invalid argument",
            ErrorKind::SessionNotCreated => "session not created",
            ErrorKind::JavascriptError => "javascript error",
            ErrorKind::UnknownError => "unknown error",
        }
    }
}

/// A failure as the public server reports it.
#[derive(Debug)]
pub struct W3cError {
    pub kind: ErrorKind,
    pub message: String,
}

/// What a `W3cError` stands for.
pub ghost struct Failure {
    pub kind: ErrorKind,
    pub message: Seq<char>,
}

impl View for W3cError {
    type V = Failure;

    open spec fn view(&self) -> Failure {
        Failure { kind: self.kind, message: self.message@ }
    }
}

/// The failure of `kind` with `message`.
pub open spec fn failure(kind: ErrorKind, message: Seq<char>) -> Failure {
    Failure { kind, message }
}

/// The document that wraps the payload `value` of a reply.
pub open spec fn envelope_spec(value: JsonValue) -> JsonValue {
    JsonValue::Object(seq![("value"@, value)])
}

/// The payload that reports the failure `f`.
pub open spec fn failure_payload(f: Failure) -> JsonValue {
    JsonValue::Object(
        seq![
            ("error"@, JsonValue::Str(f.kind.code_spec())),
            ("message"@, JsonValue::Str(f.message)),
            ("stacktrace"@, JsonValue::Str(Seq::empty())),
        ],
    )
}

/// The message that tells of an element that the session does not know.
pub open spec fn no_element_message(id: Seq<char>) -> Seq<char> {
    "Element "@ + id + " not found"@
}

impl W3cError {
    pub fn new(kind: ErrorKind, message: &str) -> (e: W3cError)
        ensures
            e@ == failure(kind, message@),
    {
        W3cError { kind, message: String::from_str(message) }
    }

    pub fn no_session() -> (e: W3cError)
        ensures
            e@ == failure(ErrorKind::InvalidSessionId, "No active session"@),
    {
        W3cError::new(ErrorKind::InvalidSessionId, "No active session")
    }

    pub fn no_element(id: &str) -> (e: W3cError)
        ensures
            e@ == failure(ErrorKind::NoSuchElement, no_element_message(id@)),
    {
        let mut message = String::from_str("Element ");
        message.append(id);
        message.append(" not found");
        W3cError { kind: ErrorKind::NoSuchElement, message }
    }

    pub fn session_not_created(message: &str) -> (e: W3cError)
        ensures
            e@ == failure(ErrorKind::SessionNotCreated, message@),
    {
        W3cError::new(ErrorKind::SessionNotCreated, message)
    }

    pub fn unknown(message: &str) -> (e: W3cError)
        ensures
            e@ == failure(ErrorKind::UnknownError, message@),
    {
        W3cError::new(ErrorKind::UnknownError, message)
    }

    pub fn bad_request(message: &str) -> (e: W3cError)
        ensures
            e@ == failure(ErrorKind::InvalidArgument, message@),
    {
        W3cError::new(ErrorKind::InvalidArgument, message)
    }

    pub fn javascript_error(message: &str) -> (e: W3cError)
        ensures
            e@ == failure(ErrorKind::JavascriptError, message@),
    {
        W3cError::new(ErrorKind::JavascriptError, message)
    }

    /// The HTTP status and the body that report this failure.
    pub fn into_response(&self) -> (response: (u16, Json))
        ensures
            response.0 == self@.kind.status_spec(),
            response.1@ == envelope_spec(failure_payload(self@)),
    {
        let mut entries = no_entries();
        put(&mut entries, "error", Json::text(self.kind.code()));
        put(&mut entries, "message", Json::text(self.message.as_str()));
        put(&mut entries, "stacktrace", Json::text(""));
        proof {
            reveal_strlit("");
            assert(""@ =~= Seq::<char>::empty());
            assert(entries_view(entries@) =~= failure_payload(self@)->Object_0);
        }
        let payload = Json::object(entries);
        (self.kind.status(), w3c_value(payload))
    }
}

/// Wraps the payload of a reply.
pub fn w3c_value(value: Json) -> (out: Json)
    ensures
        out@ == envelope_spec(value@),
{
    let mut entries = no_entries();
    put(&mut entries, "value", value);
    assert(entries_view(entries@) =~= seq![("value"@, value@)]);
    Json::object(entries)
}

/// A failure as the embedded server reports it.
#[derive(Debug)]
pub enum ApiError {
    NotFound(String),
    Internal(String),
}

/// What an `ApiError` stands for.
pub ghost enum ApiFailure {
    NotFound(Seq<char>),
    Internal(Seq<char>),
}

impl View for ApiError {
    type V = ApiFailure;

    open spec fn view(&self) -> ApiFailure {
        match self {
            ApiError::NotFound(m) => ApiFailure::NotFound(m@),
            ApiError::Internal(m) => ApiFailure::Internal(m@),
        }
    }
}

impl ApiFailure {
    pub open spec fn status(self) -> u16 {
        match self {
            ApiFailure::NotFound(_) => 404,
            ApiFailure::Internal(_) => 500,
        }
    }

    pub open spec fn message(self) -> Seq<char> {
        match self {
            ApiFailure::NotFound(m) => m,
            ApiFailure::Internal(m) => m,
        }
    }
}

impl ApiError {
    pub fn not_found(message: &str) -> (e: ApiError)
        ensures
            e@ == ApiFailure::NotFound(message@),
    {
        ApiError::NotFound(String::from_str(message))
    }

    pub fn internal(message: &str) -> (e: ApiError)
        ensures
            e@ == ApiFailure::Internal(message@),
    {
        ApiError::Internal(String::from_str(message))
    }

    /// The HTTP status and the body that report this failure.
    pub fn into_response(&self) -> (response: (u16, Json))
        ensures
            response.0 == self@.status(),
            response.1@ == JsonValue::Object(seq![("error"@, JsonValue::Str(self@.message()))]),
    {
        let (status, message): (u16, &String) = match self {
            ApiError::NotFound(m) => (404, m),
            ApiError::Internal(m) => (500, m),
        };
        let mut entries = no_entries();
        put(&mut entries, "error", Json::text(message.as_str()));
        assert(entries_view(entries@) =~= seq![("error"@, JsonValue::Str(self@.message()))]);
        (status, Json::object(entries))
    }
}

} // verus!
