//! How the public server serves a command: the requests it sends to the embedded
//! server, what it makes of the last reply, and what of a failure.

use vstd::prelude::*;
use crate::error::{envelope_spec, failure, failure_payload, w3c_value, ErrorKind, Failure, W3cError};
use crate::json::{entries_view, no_entries, put, Json, JsonValue};
use crate::session::{ElementRef, ElementRefView};
use crate::script::ScriptKind;
use crate::text::{contains, contains_text, same_text};

verus! {

/// The key under which the protocol carries an element reference.
pub const W3C_ELEMENT_KEY: &'static str = "element-6066-11e4-a52e-4f735466cecf";

/// The key under which the protocol carries a shadow root reference.
pub const W3C_SHADOW_KEY: &'static str = "shadow-6066-11e4-a52e-4f735466cecf";

/// A request to the embedded server: every one is a POST of a JSON body.
#[derive(Debug)]
pub struct AgentRequest {
    pub path: String,
    pub body: Json,
}

/// What an `AgentRequest` stands for.
pub ghost struct AgentRequestView {
    pub path: Seq<char>,
    pub body: JsonValue,
}

impl View for AgentRequest {
    type V = AgentRequestView;

    open spec fn view(&self) -> AgentRequestView {
        AgentRequestView { path: self.path@, body: self.body@ }
    }
}

/// What the public server answers with the reply of the embedded server.
#[derive(Debug)]
pub enum Answer {
    /// Null, whatever the reply.
    Null,
    /// The reply itself.
    Whole,
    /// The member of this name of the reply, or the default where it has none.
    Field(String, Json),
    /// The handle and the type of a new window, as the members of these names of the
    /// reply give them; the empty handle and the type `window` where they do not.
    Window,
    /// The member `cookie` of the reply; that there is no cookie of this name where
    /// the member is missing or null.
    Cookie(String),
}

/// What an `Answer` stands for.
pub ghost enum AnswerView {
    Null,
    Whole,
    Field(Seq<char>, JsonValue),
    Window,
    Cookie(Seq<char>),
}

impl View for Answer {
    type V = AnswerView;

    open spec fn view(&self) -> AnswerView {
        match self {
            Answer::Null => AnswerView::Null,
            Answer::Whole => AnswerView::Whole,
            Answer::Field(key, default) => AnswerView::Field(key@, default@),
            Answer::Window => AnswerView::Window,
            Answer::Cookie(name) => AnswerView::Cookie(name@),
        }
    }
}

/// What the public server makes of a failure of the embedded server.
#[derive(Debug)]
pub enum Recovery {
    /// The failure is the answer.
    Propagate,
    /// The failure is that of a script, with its message; but a script that did not
    /// report in time has not failed by itself, and that failure stays unknown.
    Javascript,
    /// A failure whose message tells of a missing alert is that of a missing alert.
    Alert,
    /// The failure is that of a missing window of this handle.
    Window(String),
    /// The answer is the empty string.
    EmptyText,
}

/// What a `Recovery` stands for.
pub ghost enum RecoveryView {
    Propagate,
    Javascript,
    Alert,
    Window(Seq<char>),
    EmptyText,
}

impl View for Recovery {
    type V = RecoveryView;

    open spec fn view(&self) -> RecoveryView {
        match self {
            Recovery::Propagate => RecoveryView::Propagate,
            Recovery::Javascript => RecoveryView::Javascript,
            Recovery::Alert => RecoveryView::Alert,
            Recovery::Window(handle) => RecoveryView::Window(handle@),
            Recovery::EmptyText => RecoveryView::EmptyText,
        }
    }
}

/// How to serve a command: send the requests in their order, stop at the first that
/// fails, and answer with the reply of the last.
#[derive(Debug)]
pub struct Plan {
    pub requests: Vec<AgentRequest>,
    pub answer: Answer,
    pub recovery: Recovery,
}

/// What a `Plan` stands for.
pub ghost struct PlanView {
    pub requests: Seq<AgentRequestView>,
    pub answer: AnswerView,
    pub recovery: RecoveryView,
}

/// The views of the requests of `requests`, in their order.
pub open spec fn requests_view(requests: Seq<AgentRequest>) -> Seq<AgentRequestView> {
    Seq::new(requests.len(), |i: int| requests[i]@)
}

impl View for Plan {
    type V = PlanView;

    open spec fn view(&self) -> PlanView {
        PlanView {
            requests: requests_view(self.requests@),
            answer: self.answer@,
            recovery: self.recovery@,
        }
    }
}

/// The request of `body` at `path`.
pub open spec fn request(path: Seq<char>, body: JsonValue) -> AgentRequestView {
    AgentRequestView { path, body }
}

/// The plan of one request.
pub open spec fn one(path: Seq<char>, body: JsonValue, answer: AnswerView, recovery: RecoveryView) -> PlanView {
    PlanView { requests: seq![request(path, body)], answer, recovery }
}

/// The plan of a request, and after it one for the rectangle of the window, which
/// is the answer.
pub open spec fn then_rect(path: Seq<char>, body: JsonValue) -> PlanView {
    PlanView {
        requests: seq![request(path, body), request("/window/rect"@, empty_object())],
        answer: AnswerView::Whole,
        recovery: RecoveryView::Propagate,
    }
}

/// The object without members.
pub open spec fn empty_object() -> JsonValue {
    JsonValue::Object(Seq::empty())
}

/// The object with the one member `key`.
pub open spec fn object_of(key: Seq<char>, value: JsonValue) -> JsonValue {
    JsonValue::Object(seq![(key, value)])
}

/// The document by which the public server names the element `r` to the embedded
/// server.
pub open spec fn element_document(r: ElementRefView) -> JsonValue {
    JsonValue::Object(element_members(r))
}

/// The members of the document that names the element `r`.
pub open spec fn element_members(r: ElementRefView) -> Seq<(Seq<char>, JsonValue)> {
    seq![
        ("selector"@, JsonValue::Str(r.selector)),
        ("index"@, JsonValue::Number(crate::json::NumberValue::Unsigned(r.index))),
        ("using"@, JsonValue::Str(r.using)),
    ]
}

/// The document that names the element `r` and has the member `key` besides.
pub open spec fn element_document_with(r: ElementRefView, key: Seq<char>, value: JsonValue) -> JsonValue {
    JsonValue::Object(element_members(r).push((key, value)))
}

/// The reference to the element `id` as the protocol writes it.
pub open spec fn element_reference(id: Seq<char>) -> JsonValue {
    object_of(W3C_ELEMENT_KEY@, JsonValue::Str(id))
}

/// The reference to the shadow root `id` as the protocol writes it.
pub open spec fn shadow_reference(id: Seq<char>) -> JsonValue {
    object_of(W3C_SHADOW_KEY@, JsonValue::Str(id))
}

/// The message that tells of a cookie that the jar does not have.
pub open spec fn no_cookie_message(name: Seq<char>) -> Seq<char> {
    "Cookie '"@ + name + "' not found"@
}

/// The message that tells of a window that the application does not have.
pub open spec fn no_window_message(handle: Seq<char>) -> Seq<char> {
    "Window '"@ + handle + "' not found"@
}

/// What the reply of the embedded server means. A reply with a status of success is
/// the result. Any other is a failure of unknown kind, with the member `error` of
/// the reply as its message where that is a string.
pub open spec fn agent_result(success: bool, body: JsonValue) -> Result<JsonValue, Failure> {
    if success {
        Ok(body)
    } else {
        Err(failure(ErrorKind::UnknownError, body.str_or("error"@, "plugin error"@)))
    }
}

/// What the public server answers with the result `result` of the embedded server.
pub open spec fn answered(answer: AnswerView, result: JsonValue) -> Result<JsonValue, Failure> {
    match answer {
        AnswerView::Null => Ok(JsonValue::Null),
        AnswerView::Whole => Ok(result),
        AnswerView::Field(key, default) => Ok(result.field_or(key, default)),
        AnswerView::Window => Ok(
            JsonValue::Object(
                seq![
                    ("handle"@, result.field_or("handle"@, JsonValue::Str(""@))),
                    ("type"@, result.field_or("type"@, JsonValue::Str("window"@))),
                ],
            ),
        ),
        AnswerView::Cookie(name) => if result.field_or("cookie"@, JsonValue::Null).is_null() {
            Err(failure(ErrorKind::NoSuchCookie, no_cookie_message(name)))
        } else {
            Ok(result.field_or("cookie"@, JsonValue::Null))
        },
    }
}

/// Whether `message` is what the embedded server says of a user script that did not
/// report in time.
pub open spec fn tells_of_timeout(message: Seq<char>) -> bool {
    message == ScriptKind::Wrapped.timeout_message() || message
        == ScriptKind::Async.timeout_message()
}

/// What the public server makes of the failure `f` of the embedded server.
pub open spec fn recovered(recovery: RecoveryView, f: Failure) -> Result<JsonValue, Failure> {
    match recovery {
        RecoveryView::Propagate => Err(f),
        RecoveryView::Javascript => if tells_of_timeout(f.message) {
            Err(failure(ErrorKind::UnknownError, f.message))
        } else {
            Err(failure(ErrorKind::JavascriptError, f.message))
        },
        RecoveryView::Alert => if contains_text(f.message, "no such alert"@) {
            Err(failure(ErrorKind::NoSuchAlert, f.message))
        } else {
            Err(f)
        },
        RecoveryView::Window(handle) => Err(
            failure(ErrorKind::NoSuchWindow, no_window_message(handle)),
        ),
        RecoveryView::EmptyText => Ok(JsonValue::Str(""@)),
    }
}

/// A user script that hangs is answered with an unknown error that tells of the
/// timeout, never with the error of a script: a script that did not report has not
/// thrown.
pub proof fn law_hanging_script_is_unknown(kind: ErrorKind, answer: AnswerView)
    ensures
        finished(answer, RecoveryView::Javascript, Err(failure(kind, "script timed out"@)))
            == Err::<JsonValue, Failure>(failure(ErrorKind::UnknownError, "script timed out"@)),
        finished(answer, RecoveryView::Javascript, Err(failure(kind, "async script timed out"@)))
            == Err::<JsonValue, Failure>(
            failure(ErrorKind::UnknownError, "async script timed out"@),
        ),
{
}

/// What the public server answers once the requests of a plan are through:
/// `outcome` is the result of the last, or the first failure.
pub open spec fn finished(
    answer: AnswerView,
    recovery: RecoveryView,
    outcome: Result<JsonValue, Failure>,
) -> Result<JsonValue, Failure> {
    match outcome {
        Ok(result) => answered(answer, result),
        Err(f) => recovered(recovery, f),
    }
}

/// The view of a result.
pub open spec fn outcome_view(r: Result<Json, W3cError>) -> Result<JsonValue, Failure> {
    match r {
        Ok(v) => Ok(v@),
        Err(e) => Err(e@),
    }
}

/// The view of a result.
pub open spec fn plan_result(r: Result<Plan, W3cError>) -> Result<PlanView, Failure> {
    match r {
        Ok(p) => Ok(p@),
        Err(e) => Err(e@),
    }
}

/// The HTTP status and the body that carry `outcome` to the client.
pub open spec fn response(outcome: Result<JsonValue, Failure>) -> (u16, JsonValue) {
    match outcome {
        Ok(value) => (200u16, envelope_spec(value)),
        Err(f) => (f.kind.status_spec(), envelope_spec(failure_payload(f))),
    }
}

/// The object without members.
pub fn empty_body() -> (out: Json)
    ensures
        out@ == empty_object(),
{
    Json::empty_object()
}

/// The object with the one member `key`.
pub fn object1(key: &str, value: Json) -> (out: Json)
    ensures
        out@ == object_of(key@, value@),
{
    let mut entries = no_entries();
    put(&mut entries, key, value);
    assert(entries_view(entries@) =~= seq![(key@, value@)]);
    Json::object(entries)
}

/// The document that names the element `e` to the embedded server.
pub fn element_body(e: &ElementRef) -> (out: Json)
    ensures
        out@ == element_document(e@),
{
    let mut entries = no_entries();
    put(&mut entries, "selector", Json::text(e.selector.as_str()));
    put(&mut entries, "index", Json::unsigned(e.index));
    put(&mut entries, "using", Json::text(e.using.as_str()));
    assert(entries_view(entries@) =~= element_members(e@));
    Json::object(entries)
}

/// The document that names the element `e` and has the member `key` besides.
pub fn element_body_with(e: &ElementRef, key: &str, value: Json) -> (out: Json)
    ensures
        out@ == element_document_with(e@, key@, value@),
{
    let mut entries = no_entries();
    put(&mut entries, "selector", Json::text(e.selector.as_str()));
    put(&mut entries, "index", Json::unsigned(e.index));
    put(&mut entries, "using", Json::text(e.using.as_str()));
    put(&mut entries, key, value);
    assert(entries_view(entries@) =~= element_members(e@).push((key@, value@)));
    Json::object(entries)
}

/// The request of `body` at `path`.
pub fn post(path: &str, body: Json) -> (r: AgentRequest)
    ensures
        r@ == request(path@, body@),
{
    AgentRequest { path: String::from_str(path), body }
}

/// The plan of one request.
pub fn single(path: &str, body: Json, answer: Answer, recovery: Recovery) -> (plan: Plan)
    ensures
        plan@ == one(path@, body@, answer@, recovery@),
{
    let mut requests: Vec<AgentRequest> = Vec::new();
    requests.push(post(path, body));
    assert(requests_view(requests@) =~= seq![request(path@, body@)]);
    Plan { requests, answer, recovery }
}

/// The plan of a request, and after it one for the rectangle of the window.
pub fn with_rect(path: &str, body: Json) -> (plan: Plan)
    ensures
        plan@ == then_rect(path@, body@),
{
    let mut requests: Vec<AgentRequest> = Vec::new();
    requests.push(post(path, body));
    requests.push(post("/window/rect", empty_body()));
    assert(requests_view(requests@) =~= seq![
        request(path@, body@),
        request("/window/rect"@, empty_object()),
    ]);
    Plan { requests, answer: Answer::Whole, recovery: Recovery::Propagate }
}

/// The answer with the member `key` of the reply, or the string `default`.
pub fn field_text(key: &str, default: &str) -> (answer: Answer)
    ensures
        answer@ == AnswerView::Field(key@, JsonValue::Str(default@)),
{
    Answer::Field(String::from_str(key), Json::text(default))
}

/// Says what the reply of the embedded server means, by the success of its status
/// and its body.
pub fn plugin_post(success: bool, body: Json) -> (r: Result<Json, W3cError>)
    ensures
        outcome_view(r) == agent_result(success, body@),
{
    if success {
        Ok(body)
    } else {
        Err(W3cError { kind: ErrorKind::UnknownError, message: body.str_or("error", "plugin error") })
    }
}

/// The failure of a request that did not reach the embedded server.
pub fn request_failed(reason: &str) -> (e: W3cError)
    ensures
        e@ == failure(ErrorKind::UnknownError, "plugin request failed: "@ + reason@),
{
    let mut message = String::from_str("plugin request failed: ");
    message.append(reason);
    W3cError { kind: ErrorKind::UnknownError, message }
}

/// The failure of a reply of the embedded server that is no JSON.
pub fn reply_unreadable(reason: &str) -> (e: W3cError)
    ensures
        e@ == failure(ErrorKind::UnknownError, "plugin response parse failed: "@ + reason@),
{
    let mut message = String::from_str("plugin response parse failed: ");
    message.append(reason);
    W3cError { kind: ErrorKind::UnknownError, message }
}

/// Says what the public server answers once the requests of `plan` are through.
pub fn finish(plan: &Plan, outcome: Result<Json, W3cError>) -> (r: Result<Json, W3cError>)
    ensures
        outcome_view(r) == finished(plan@.answer, plan@.recovery, outcome_view(outcome)),
{
    match outcome {
        Ok(result) => match &plan.answer {
            Answer::Null => Ok(Json::Null),
            Answer::Whole => Ok(result),
            Answer::Field(key, default) => Ok(result.field_or(key.as_str(), default.copy())),
            Answer::Window => {
                let mut entries = no_entries();
                put(&mut entries, "handle", result.field_or("handle", Json::text("")));
                put(&mut entries, "type", result.field_or("type", Json::text("window")));
                assert(entries_view(entries@) =~= seq![
                    ("handle"@, result@.field_or("handle"@, JsonValue::Str(""@))),
                    ("type"@, result@.field_or("type"@, JsonValue::Str("window"@))),
                ]);
                Ok(Json::object(entries))
            },
            Answer::Cookie(name) => {
                let cookie = result.field_or("cookie", Json::Null);
                if cookie.is_null() {
                    let mut message = String::from_str("Cookie '");
                    message.append(name.as_str());
                    message.append("' not found");
                    Err(W3cError { kind: ErrorKind::NoSuchCookie, message })
                } else {
                    Ok(cookie)
                }
            },
        },
        Err(e) => match &plan.recovery {
            Recovery::Propagate => Err(e),
            Recovery::Javascript => {
                if same_text(e.message.as_str(), "script timed out") || same_text(
                    e.message.as_str(),
                    "async script timed out",
                ) {
                    Err(W3cError { kind: ErrorKind::UnknownError, message: e.message })
                } else {
                    Err(W3cError { kind: ErrorKind::JavascriptError, message: e.message })
                }
            },
            Recovery::Alert => {
                if contains(e.message.as_str(), "no such alert") {
                    Err(W3cError { kind: ErrorKind::NoSuchAlert, message: e.message })
                } else {
                    Err(e)
                }
            },
            Recovery::Window(handle) => {
                let mut message = String::from_str("Window '");
                message.append(handle.as_str());
                message.append("' not found");
                Err(W3cError { kind: ErrorKind::NoSuchWindow, message })
            },
            Recovery::EmptyText => Ok(Json::text("")),
        },
    }
}

/// The HTTP status and the body that carry `outcome` to the client.
pub fn respond(outcome: Result<Json, W3cError>) -> (r: (u16, Json))
    ensures
        r.0 == response(outcome_view(outcome)).0,
        r.1@ == response(outcome_view(outcome)).1,
{
    match outcome {
        Ok(value) => (200, w3c_value(value)),
        Err(e) => e.into_response(),
    }
}

} // verus!
