//! How a session comes to be: what the request must name, how the embedded server
//! announces its port on the application's standard output, and how the public
//! server reads that announcement.

use vstd::prelude::*;
use crate::error::{failure, ErrorKind, Failure, W3cError};
use crate::json::{entries_view, lemma_array_view, no_entries, put, value_of, Json, JsonValue};
use crate::outside::fresh_id;
use crate::registry::{find, has_key, lemma_find, lemma_find_push, Registry};
use crate::text::{chars_of, decimal, decimal_digits, is_digit, lemma_decimal_digits, lemma_leading_whitespace_is, lemma_trailing_whitespace_is, parse_u16, parse_u16_spec, trim_range, trimmed, unsigned_body};

verus! {

/// What stands before the port in the announcement of the embedded server.
pub const PORT_PREFIX: &'static str = "[webdriver] listening on port ";

/// The longest that the public server watches the output of an application for the
/// announcement, in seconds.
pub const STARTUP_SECONDS: u64 = 30;

/// The line by which the embedded server announces that it listens on `port`.
pub open spec fn announcement_spec(port: u16) -> Seq<char> {
    PORT_PREFIX@ + decimal_digits(port as nat)
}

/// Whether `line` begins with `prefix`.
pub open spec fn starts_with(line: Seq<char>, prefix: Seq<char>) -> bool {
    prefix.len() <= line.len() && line.take(prefix.len() as int) == prefix
}

/// The port that `line` announces: the line begins with the announcement's prefix,
/// and what follows is, white space at its ends aside, a number of 16 bits.
pub open spec fn announced_port(line: Seq<char>) -> Option<u16> {
    if starts_with(line, PORT_PREFIX@) {
        parse_u16_spec(trimmed(line.skip(PORT_PREFIX@.len() as int)))
    } else {
        None
    }
}

/// Writes the line by which the embedded server announces that it listens on `port`.
pub fn announcement(port: u16) -> (line: String)
    ensures
        line@ == announcement_spec(port),
{
    let mut line = String::from_str(PORT_PREFIX);
    line.append(decimal(port as u64).as_str());
    line
}

/// Reads the port that `line` announces.
pub fn parse_port_line(line: &str) -> (port: Option<u16>)
    ensures
        port == announced_port(line@),
{
    let chars = chars_of(line);
    let prefix = chars_of(PORT_PREFIX);
    if chars.len() < prefix.len() {
        return None;
    }
    let mut i: usize = 0;
    while i < prefix.len()
        invariant
            i <= prefix.len() <= chars.len(),
            chars@ == line@,
            prefix@ == PORT_PREFIX@,
            forall|k: int| 0 <= k < i ==> chars@[k] == prefix@[k],
        decreases prefix.len() - i,
    {
        if chars[i] != prefix[i] {
            assert(line@.take(prefix@.len() as int)[i as int] != prefix@[i as int]);
            return None;
        }
        i += 1;
    }
    assert(line@.take(prefix@.len() as int) =~= prefix@);
    let mut rest: Vec<char> = Vec::new();
    let mut k: usize = prefix.len();
    while k < chars.len()
        invariant
            prefix.len() <= k <= chars.len(),
            chars@ == line@,
            rest@ == line@.subrange(prefix.len() as int, k as int),
        decreases chars.len() - k,
    {
        rest.push(chars[k]);
        assert(rest@ =~= line@.subrange(prefix.len() as int, k + 1));
        k += 1;
    }
    assert(rest@ =~= line@.skip(prefix@.len() as int));
    let (from, to) = trim_range(&rest);
    parse_u16(&rest, from, to)
}

/// The announcement of a port is read as that port.
pub proof fn law_announcement_round_trip(port: u16)
    ensures
        announced_port(announcement_spec(port)) == Some(port),
{
    let digits = decimal_digits(port as nat);
    let line = announcement_spec(port);
    lemma_decimal_digits(port as nat);
    assert(line.take(PORT_PREFIX@.len() as int) =~= PORT_PREFIX@);
    assert(line.skip(PORT_PREFIX@.len() as int) =~= digits);
    assert(is_digit(digits[0]));
    assert(is_digit(digits[digits.len() - 1]));
    lemma_leading_whitespace_is(digits, 0);
    assert(digits.skip(0) =~= digits);
    lemma_trailing_whitespace_is(digits, 0);
    assert(digits.take(digits.len() as int) =~= digits);
    assert(trimmed(digits) == digits);
    assert(unsigned_body(digits) == digits);
}

/// What the public server learns while it watches the output of an application.
#[derive(Debug)]
pub enum StdoutEvent {
    /// The application wrote this line.
    Line(String),
    /// The application closed its output.
    Closed,
    /// The time for the announcement is over.
    Deadline,
    /// Reading failed, for this reason.
    Failed(String),
}

/// What the public server does next while it watches the output of an application.
#[derive(Debug)]
pub enum WatchStep {
    /// Go on reading.
    Continue,
    /// The embedded server listens on this port.
    Found(u16),
    /// Give the session up with this failure.
    GiveUp(W3cError),
}

/// What a `WatchStep` stands for.
pub ghost enum WatchStepView {
    Continue,
    Found(u16),
    GiveUp(Failure),
}

impl View for WatchStep {
    type V = WatchStepView;

    open spec fn view(&self) -> WatchStepView {
        match self {
            WatchStep::Continue => WatchStepView::Continue,
            WatchStep::Found(port) => WatchStepView::Found(*port),
            WatchStep::GiveUp(e) => WatchStepView::GiveUp(e@),
        }
    }
}

/// What the public server does on `event`: a line that announces a port ends the
/// watch, any other line is passed over; the end of the output and the deadline give
/// the session up, and so does a failure to read, with its reason.
pub open spec fn watch_step(event: StdoutEvent) -> WatchStepView {
    match event {
        StdoutEvent::Line(line) => match announced_port(line@) {
            Some(port) => WatchStepView::Found(port),
            None => WatchStepView::Continue,
        },
        StdoutEvent::Closed => WatchStepView::GiveUp(
            failure(ErrorKind::SessionNotCreated, "App did not report plugin port in time"@),
        ),
        StdoutEvent::Deadline => WatchStepView::GiveUp(
            failure(ErrorKind::SessionNotCreated, "App did not report plugin port in time"@),
        ),
        StdoutEvent::Failed(reason) => WatchStepView::GiveUp(
            failure(ErrorKind::SessionNotCreated, "IO error reading app stdout: "@ + reason@),
        ),
    }
}

/// Says what the public server does on `event` while it watches the output of an
/// application.
pub fn watch_stdout(event: &StdoutEvent) -> (step: WatchStep)
    ensures
        step@ == watch_step(*event),
{
    match event {
        StdoutEvent::Line(line) => match parse_port_line(line.as_str()) {
            Some(port) => WatchStep::Found(port),
            None => WatchStep::Continue,
        },
        StdoutEvent::Closed => WatchStep::GiveUp(
            W3cError::session_not_created("App did not report plugin port in time"),
        ),
        StdoutEvent::Deadline => WatchStep::GiveUp(
            W3cError::session_not_created("App did not report plugin port in time"),
        ),
        StdoutEvent::Failed(reason) => {
            let mut message = String::from_str("IO error reading app stdout: ");
            message.append(reason.as_str());
            WatchStep::GiveUp(W3cError { kind: ErrorKind::SessionNotCreated, message })
        },
    }
}

/// The first of the capability sets that a request offers as alternatives: the
/// first item where `firstMatch` is an array, the member `0` where it is an object.
pub open spec fn first_match(capabilities: JsonValue) -> Option<JsonValue> {
    match capabilities.get("firstMatch"@) {
        Some(JsonValue::Array(items)) => if items.len() > 0 {
            Some(items[0])
        } else {
            None
        },
        Some(other) => other.get("0"@),
        None => None,
    }
}

/// The member `key` of the options for this driver in the capability set `set`.
pub open spec fn option_of(set: Option<JsonValue>, key: Seq<char>) -> Option<JsonValue> {
    match set {
        Some(set) => match set.get("tauri:options"@) {
            Some(options) => options.get(key),
            None => None,
        },
        None => None,
    }
}

/// The first of two optional values that is there.
pub open spec fn or_else(first: Option<JsonValue>, second: Option<JsonValue>) -> Option<
    JsonValue,
> {
    match first {
        Some(v) => Some(v),
        None => second,
    }
}

/// What the request `body` names as the application: the option `binary` or, failing
/// that, `application` of the capabilities that must match; failing both, the same
/// of the first alternative.
pub open spec fn named_application(body: JsonValue) -> Option<JsonValue> {
    match body.get("capabilities"@) {
        Some(capabilities) => {
            let always = capabilities.get("alwaysMatch"@);
            let first = first_match(capabilities);
            or_else(
                option_of(always, "binary"@),
                or_else(
                    option_of(always, "application"@),
                    or_else(option_of(first, "binary"@), option_of(first, "application"@)),
                ),
            )
        },
        None => None,
    }
}

/// Whether a server that admits `max_sessions` sessions, or any number where that is
/// 0, has room for one more beside `active`.
pub open spec fn has_room(max_sessions: usize, active: usize) -> bool {
    max_sessions == 0 || active < max_sessions
}

/// The path of the application that a request for a session names, or why there
/// will be no session: the server is full, or the request names no application by
/// a string.
pub open spec fn requested_binary(max_sessions: usize, active: usize, body: JsonValue) -> Result<
    Seq<char>,
    Failure,
> {
    if !has_room(max_sessions, active) {
        Err(failure(ErrorKind::SessionNotCreated, "Maximum number of sessions reached"@))
    } else {
        match named_application(body) {
            Some(JsonValue::Str(path)) => Ok(path),
            _ => Err(
                failure(
                    ErrorKind::SessionNotCreated,
                    "Missing tauri:options.binary (or application) in capabilities"@,
                ),
            ),
        }
    }
}

fn first_match_of(capabilities: &Json) -> (found: Option<&Json>)
    ensures
        value_of(found) == first_match(capabilities@),
{
    match capabilities.get("firstMatch") {
        Some(Json::Array(items)) => {
            proof {
                lemma_array_view(*items);
            }
            if items.len() > 0 {
                Some(&items[0])
            } else {
                None
            }
        },
        Some(other) => other.get("0"),
        None => None,
    }
}

fn option_in<'a>(set: Option<&'a Json>, key: &str) -> (found: Option<&'a Json>)
    ensures
        value_of(found) == option_of(value_of(set), key@),
{
    match set {
        Some(set) => match set.get("tauri:options") {
            Some(options) => options.get(key),
            None => None,
        },
        None => None,
    }
}

fn named_application_of(body: &Json) -> (found: Option<&Json>)
    ensures
        value_of(found) == named_application(body@),
{
    match body.get("capabilities") {
        Some(capabilities) => {
            let always = capabilities.get("alwaysMatch");
            let first = first_match_of(capabilities);
            if let Some(v) = option_in(always, "binary") {
                return Some(v);
            }
            if let Some(v) = option_in(always, "application") {
                return Some(v);
            }
            if let Some(v) = option_in(first, "binary") {
                return Some(v);
            }
            option_in(first, "application")
        },
        None => None,
    }
}

/// The view of a result.
pub open spec fn text_result(r: Result<String, W3cError>) -> Result<Seq<char>, Failure> {
    match r {
        Ok(s) => Ok(s@),
        Err(e) => Err(e@),
    }
}

/// The first step of the creation of a session: says which application to start,
/// or why there will be no session.
pub fn create_session(max_sessions: usize, active: usize, body: &Json) -> (binary: Result<
    String,
    W3cError,
>)
    ensures
        text_result(binary) == requested_binary(max_sessions, active, body@),
{
    if max_sessions > 0 && active >= max_sessions {
        return Err(W3cError::session_not_created("Maximum number of sessions reached"));
    }
    match named_application_of(body) {
        Some(Json::Str(path)) => Ok(path.clone()),
        _ => Err(
            W3cError::session_not_created(
                "Missing tauri:options.binary (or application) in capabilities",
            ),
        ),
    }
}

/// The failure of an application that could not be started.
pub fn launch_failed(binary: &str, reason: &str) -> (e: W3cError)
    ensures
        e@ == failure(
            ErrorKind::SessionNotCreated,
            "Failed to launch "@ + binary@ + ": "@ + reason@,
        ),
{
    let mut message = String::from_str("Failed to launch ");
    message.append(binary);
    message.append(": ");
    message.append(reason);
    W3cError { kind: ErrorKind::SessionNotCreated, message }
}

/// The failure of an application whose output could not be captured.
pub fn no_stdout() -> (e: W3cError)
    ensures
        e@ == failure(ErrorKind::SessionNotCreated, "Failed to capture app stdout"@),
{
    W3cError::session_not_created("Failed to capture app stdout")
}

/// The last step of the creation of a session: enters `session` into `sessions`
/// under a fresh random id and answers with the id. Only where that very id is
/// taken, nothing is entered and the session comes back.
pub fn open_session<T>(sessions: &mut Registry<T>, session: T) -> (id: Result<String, T>)
    requires
        old(sessions).wf(),
    ensures
        final(sessions).wf(),
        exists|candidate: Seq<char>|
            #[trigger] has_key(old(sessions)@, candidate) == (id is Err) && match id {
                Ok(id) => id@ == candidate && final(sessions)@ == old(sessions)@.push(
                    (id@, session),
                ),
                Err(back) => back == session && final(sessions)@ == old(sessions)@,
            },
{
    let id = fresh_id();
    let key = id.clone();
    let ghost candidate = id@;
    let refused = sessions.insert(key, session);
    let answer = match refused {
        Some(back) => Err(back),
        None => Ok(id),
    };
    assert(has_key(old(sessions)@, candidate) == (answer is Err));
    answer
}

/// The failure of a session whose id was found in use.
pub fn id_in_use() -> (e: W3cError)
    ensures
        e@ == failure(ErrorKind::SessionNotCreated, "Session id already in use"@),
{
    W3cError::session_not_created("Session id already in use")
}

/// A session that entered under a free id is known by that id, every other id finds
/// what it found before, and once the session is taken out the table is as it was:
/// the id finds nothing.
pub proof fn law_session_lifecycle<T>(
    sessions: Seq<(Seq<char>, T)>,
    sid: Seq<char>,
    session: T,
    other: Seq<char>,
)
    requires
        !has_key(sessions, sid),
        other != sid,
    ensures
        find(sessions.push((sid, session)), sid) == Some(session),
        find(sessions.push((sid, session)), other) == find(sessions, other),
        sessions.push((sid, session)).remove(sessions.len() as int) == sessions,
        find(sessions, sid) is None,
{
    lemma_find(sessions, sid);
    lemma_find_push(sessions, sid, session, sid);
    lemma_find_push(sessions, sid, session, other);
    assert(sessions.push((sid, session)).remove(sessions.len() as int) =~= sessions);
}

/// The answer to the creation of the session `session_id` for the application
/// `binary`.
pub open spec fn session_document(session_id: Seq<char>, binary: Seq<char>) -> JsonValue {
    JsonValue::Object(
        seq![
            ("sessionId"@, JsonValue::Str(session_id)),
            (
                "capabilities"@,
                JsonValue::Object(
                    seq![
                        ("browserName"@, JsonValue::Str("tauri"@)),
                        ("platformName"@, JsonValue::Str("mac"@)),
                        (
                            "tauri:options"@,
                            JsonValue::Object(seq![("binary"@, JsonValue::Str(binary))]),
                        ),
                    ],
                ),
            ),
        ],
    )
}

/// Writes the answer to the creation of a session.
pub fn session_created(session_id: &str, binary: &str) -> (out: Json)
    ensures
        out@ == session_document(session_id@, binary@),
{
    let mut options = no_entries();
    put(&mut options, "binary", Json::text(binary));
    assert(entries_view(options@) =~= seq![("binary"@, JsonValue::Str(binary@))]);
    let options = Json::object(options);
    let mut capabilities = no_entries();
    put(&mut capabilities, "browserName", Json::text("tauri"));
    put(&mut capabilities, "platformName", Json::text("mac"));
    put(&mut capabilities, "tauri:options", options);
    assert(entries_view(capabilities@) =~= seq![
        ("browserName"@, JsonValue::Str("tauri"@)),
        ("platformName"@, JsonValue::Str("mac"@)),
        ("tauri:options"@, JsonValue::Object(seq![("binary"@, JsonValue::Str(binary@))])),
    ]);
    let capabilities = Json::object(capabilities);
    let mut entries = no_entries();
    put(&mut entries, "sessionId", Json::text(session_id));
    put(&mut entries, "capabilities", capabilities);
    assert(entries_view(entries@) =~= session_document(session_id@, binary@)->Object_0);
    Json::object(entries)
}

/// What the server says of itself with `count` sessions.
pub open spec fn status_message(max_sessions: usize, count: usize) -> Seq<char> {
    if count == 0 {
        "ready"@
    } else if has_room(max_sessions, count) {
        decimal_digits(count as nat) + " session(s) active, accepting more"@
    } else {
        decimal_digits(count as nat) + " session(s) active, at capacity"@
    }
}

/// The status of a server with `count` sessions: whether it has room for one more,
/// and what it says of itself.
pub open spec fn status_document(max_sessions: usize, count: usize) -> JsonValue {
    JsonValue::Object(
        seq![
            ("ready"@, JsonValue::Bool(has_room(max_sessions, count))),
            ("message"@, JsonValue::Str(status_message(max_sessions, count))),
        ],
    )
}

/// Writes the status of a server with `count` sessions.
pub fn get_status(max_sessions: usize, count: usize) -> (out: Json)
    ensures
        out@ == status_document(max_sessions, count),
{
    let ready = max_sessions == 0 || count < max_sessions;
    let message = if count == 0 {
        String::from_str("ready")
    } else if ready {
        let mut m = decimal(count as u64);
        m.append(" session(s) active, accepting more");
        m
    } else {
        let mut m = decimal(count as u64);
        m.append(" session(s) active, at capacity");
        m
    };
    let mut entries = no_entries();
    put(&mut entries, "ready", Json::Bool(ready));
    put(&mut entries, "message", Json::Str(message));
    assert(entries_view(entries@) =~= status_document(max_sessions, count)->Object_0);
    Json::object(entries)
}

} // verus!
