//! The commands of the public server that one plan serves: for each, the requests
//! to the embedded server, what to answer with the reply, and what with a failure.

use vstd::prelude::*;
use crate::error::{failure, ErrorKind, Failure, W3cError};
use crate::json::{entries_view, items_view, no_entries, put, Json, JsonValue, NumberValue};
use crate::plan::{
    element_body, element_body_with, element_document, element_document_with, empty_body,
    empty_object, field_text, object1, object_of, one, plan_result, single, then_rect, with_rect,
    Answer, AnswerView, Plan, PlanView, Recovery, RecoveryView, W3C_ELEMENT_KEY,
};
use crate::registry::find;
use crate::session::{resolve_element, ElementRefView, ElementTable, Session};
use crate::error::no_element_message;

verus! {

/// The plan of one request that names the element `eid` of `table`, with the member
/// `extra` besides where there is one. An id that the table does not know is
/// refused.
pub open spec fn on_element(
    table: ElementTable,
    eid: Seq<char>,
    path: Seq<char>,
    extra: Option<(Seq<char>, JsonValue)>,
    answer: AnswerView,
    recovery: RecoveryView,
) -> Result<PlanView, Failure> {
    match find(table, eid) {
        Some(r) => Ok(
            one(
                path,
                match extra {
                    Some((key, value)) => element_document_with(r, key, value),
                    None => element_document(r),
                },
                answer,
                recovery,
            ),
        ),
        None => Err(failure(ErrorKind::NoSuchElement, no_element_message(eid))),
    }
}

fn element_plan(session: &Session, eid: &str, path: &str, answer: Answer) -> (plan: Result<
    Plan,
    W3cError,
>)
    ensures
        plan_result(plan) == on_element(
            session@.elements,
            eid@,
            path@,
            None,
            answer@,
            RecoveryView::Propagate,
        ),
{
    match resolve_element(session, eid) {
        Ok(e) => Ok(single(path, element_body(e), answer, Recovery::Propagate)),
        Err(e) => Err(e),
    }
}

fn named_element_plan(
    session: &Session,
    eid: &str,
    path: &str,
    name: &str,
    answer: Answer,
    recovery: Recovery,
) -> (plan: Result<Plan, W3cError>)
    ensures
        plan_result(plan) == on_element(
            session@.elements,
            eid@,
            path@,
            Some(("name"@, JsonValue::Str(name@))),
            answer@,
            recovery@,
        ),
{
    match resolve_element(session, eid) {
        Ok(e) => Ok(single(path, element_body_with(e, "name", Json::text(name)), answer, recovery)),
        Err(e) => Err(e),
    }
}


/// The array without items.
pub fn empty_array() -> (out: Json)
    ensures
        out@ == JsonValue::Array(Seq::empty()),
{
    let items: Vec<Json> = Vec::new();
    assert(items_view(items@) =~= Seq::<JsonValue>::empty());
    Json::array(items)
}


/// The address of the top-level document.
pub fn get_url() -> (plan: Plan)
    ensures
        plan@ == one("/navigate/current"@, empty_object(), AnswerView::Field("url"@, JsonValue::Str(""@)), RecoveryView::Propagate),
{
    single("/navigate/current", empty_body(), field_text("url", ""), Recovery::Propagate)
}


/// The title of the top-level document.
pub fn get_title() -> (plan: Plan)
    ensures
        plan@ == one("/navigate/title"@, empty_object(), AnswerView::Field("title"@, JsonValue::Str(""@)), RecoveryView::Propagate),
{
    single("/navigate/title", empty_body(), field_text("title", ""), Recovery::Propagate)
}


/// One step back in the history.
pub fn go_back() -> (plan: Plan)
    ensures
        plan@ == one("/navigate/back"@, empty_object(), AnswerView::Null, RecoveryView::Propagate),
{
    single("/navigate/back", empty_body(), Answer::Null, Recovery::Propagate)
}


/// One step forward in the history.
pub fn go_forward() -> (plan: Plan)
    ensures
        plan@ == one("/navigate/forward"@, empty_object(), AnswerView::Null, RecoveryView::Propagate),
{
    single("/navigate/forward", empty_body(), Answer::Null, Recovery::Propagate)
}


/// Loads the document again.
pub fn refresh() -> (plan: Plan)
    ensures
        plan@ == one("/navigate/refresh"@, empty_object(), AnswerView::Null, RecoveryView::Propagate),
{
    single("/navigate/refresh", empty_body(), Answer::Null, Recovery::Propagate)
}


/// The handle of the current window.
pub fn get_window_handle() -> (plan: Plan)
    ensures
        plan@ == one("/window/handle"@, empty_object(), AnswerView::Whole, RecoveryView::Propagate),
{
    single("/window/handle", empty_body(), Answer::Whole, Recovery::Propagate)
}


/// The handles of all windows.
pub fn get_window_handles() -> (plan: Plan)
    ensures
        plan@ == one("/window/handles"@, empty_object(), AnswerView::Whole, RecoveryView::Propagate),
{
    single("/window/handles", empty_body(), Answer::Whole, Recovery::Propagate)
}


/// The rectangle of the current window.
pub fn get_window_rect() -> (plan: Plan)
    ensures
        plan@ == one("/window/rect"@, empty_object(), AnswerView::Whole, RecoveryView::Propagate),
{
    single("/window/rect", empty_body(), Answer::Whole, Recovery::Propagate)
}


/// All cookies of the jar; none where the reply lists none.
pub fn get_all_cookies() -> (plan: Plan)
    ensures
        plan@ == one("/cookie/get-all"@, empty_object(), AnswerView::Field("cookies"@, JsonValue::Array(Seq::empty())), RecoveryView::Propagate),
{
    single("/cookie/get-all", empty_body(), Answer::Field(String::from_str("cookies"), empty_array()), Recovery::Propagate)
}


/// Empties the jar.
pub fn delete_all_cookies() -> (plan: Plan)
    ensures
        plan@ == one("/cookie/delete-all"@, empty_object(), AnswerView::Null, RecoveryView::Propagate),
{
    single("/cookie/delete-all", empty_body(), Answer::Null, Recovery::Propagate)
}


/// Releases all keys and buttons.
pub fn release_actions() -> (plan: Plan)
    ensures
        plan@ == one("/actions/release"@, empty_object(), AnswerView::Null, RecoveryView::Propagate),
{
    single("/actions/release", empty_body(), Answer::Null, Recovery::Propagate)
}


/// Dismisses the open dialog.
pub fn dismiss_alert() -> (plan: Plan)
    ensures
        plan@ == one("/alert/dismiss"@, empty_object(), AnswerView::Null, RecoveryView::Alert),
{
    single("/alert/dismiss", empty_body(), Answer::Null, Recovery::Alert)
}


/// Accepts the open dialog.
pub fn accept_alert() -> (plan: Plan)
    ensures
        plan@ == one("/alert/accept"@, empty_object(), AnswerView::Null, RecoveryView::Alert),
{
    single("/alert/accept", empty_body(), Answer::Null, Recovery::Alert)
}


/// The text of the open dialog.
pub fn get_alert_text() -> (plan: Plan)
    ensures
        plan@ == one("/alert/text"@, empty_object(), AnswerView::Field("text"@, JsonValue::Str(""@)), RecoveryView::Alert),
{
    single("/alert/text", empty_body(), field_text("text", ""), Recovery::Alert)
}


/// A picture of the document.
pub fn take_screenshot() -> (plan: Plan)
    ensures
        plan@ == one("/screenshot"@, empty_object(), AnswerView::Field("data"@, JsonValue::Str(""@)), RecoveryView::Propagate),
{
    single("/screenshot", empty_body(), field_text("data", ""), Recovery::Propagate)
}


/// Leaves the current frame for the one around it.
pub fn switch_to_parent_frame() -> (plan: Plan)
    ensures
        plan@ == one("/frame/parent"@, empty_object(), AnswerView::Null, RecoveryView::Propagate),
{
    single("/frame/parent", empty_body(), Answer::Null, Recovery::Propagate)
}


/// The markup of the current document.
pub fn get_page_source() -> (plan: Plan)
    ensures
        plan@ == one("/source"@, empty_object(), AnswerView::Field("source"@, JsonValue::Str(""@)), RecoveryView::Propagate),
{
    single("/source", empty_body(), field_text("source", ""), Recovery::Propagate)
}


/// Maximizes the current window and answers with its rectangle.
pub fn maximize_window() -> (plan: Plan)
    ensures
        plan@ == then_rect("/window/maximize"@, empty_object()),
{
    with_rect("/window/maximize", empty_body())
}


/// Minimizes the current window and answers with its rectangle.
pub fn minimize_window() -> (plan: Plan)
    ensures
        plan@ == then_rect("/window/minimize"@, empty_object()),
{
    with_rect("/window/minimize", empty_body())
}


/// Makes the current window fill the screen and answers with its rectangle.
pub fn fullscreen_window() -> (plan: Plan)
    ensures
        plan@ == then_rect("/window/fullscreen"@, empty_object()),
{
    with_rect("/window/fullscreen", empty_body())
}


/// Changes the rectangle of the current window as `body` says and answers with the
/// rectangle it then has.
pub fn set_window_rect(body: &Json) -> (plan: Plan)
    ensures
        plan@ == then_rect("/window/set-rect"@, body@),
{
    with_rect("/window/set-rect", body.copy())
}

/// Opens a new window, of the type that `body` asks for.
pub fn new_window(body: &Json) -> (plan: Plan)
    ensures
        plan@ == one("/window/new"@, body@, AnswerView::Window, RecoveryView::Propagate),
{
    single("/window/new", body.copy(), Answer::Window, Recovery::Propagate)
}

/// The document as a PDF, printed as `body` asks.
pub fn print_page(body: &Json) -> (plan: Plan)
    ensures
        plan@ == one(
            "/print"@,
            body@,
            AnswerView::Field("data"@, JsonValue::Str(""@)),
            RecoveryView::Propagate,
        ),
{
    single("/print", body.copy(), field_text("data", ""), Recovery::Propagate)
}


/// Clicks an element.
pub fn click_element(session: &Session, eid: &str) -> (plan: Result<Plan, W3cError>)
    ensures
        plan_result(plan) == on_element(
            session@.elements,
            eid@,
            "/element/click"@,
            None,
            AnswerView::Null,
            RecoveryView::Propagate,
        ),
{
    element_plan(session, eid, "/element/click", Answer::Null)
}


/// Empties the value of an element.
pub fn clear_element(session: &Session, eid: &str) -> (plan: Result<Plan, W3cError>)
    ensures
        plan_result(plan) == on_element(
            session@.elements,
            eid@,
            "/element/clear"@,
            None,
            AnswerView::Null,
            RecoveryView::Propagate,
        ),
{
    element_plan(session, eid, "/element/clear", Answer::Null)
}


/// The text of an element.
pub fn get_element_text(session: &Session, eid: &str) -> (plan: Result<Plan, W3cError>)
    ensures
        plan_result(plan) == on_element(
            session@.elements,
            eid@,
            "/element/text"@,
            None,
            AnswerView::Field("text"@, JsonValue::Str(""@)),
            RecoveryView::Propagate,
        ),
{
    element_plan(session, eid, "/element/text", field_text("text", ""))
}


/// The tag name of an element.
pub fn get_element_tag(session: &Session, eid: &str) -> (plan: Result<Plan, W3cError>)
    ensures
        plan_result(plan) == on_element(
            session@.elements,
            eid@,
            "/element/tag"@,
            None,
            AnswerView::Field("tag"@, JsonValue::Str(""@)),
            RecoveryView::Propagate,
        ),
{
    element_plan(session, eid, "/element/tag", field_text("tag", ""))
}


/// The rectangle of an element.
pub fn get_element_rect(session: &Session, eid: &str) -> (plan: Result<Plan, W3cError>)
    ensures
        plan_result(plan) == on_element(
            session@.elements,
            eid@,
            "/element/rect"@,
            None,
            AnswerView::Whole,
            RecoveryView::Propagate,
        ),
{
    element_plan(session, eid, "/element/rect", Answer::Whole)
}


/// Whether an element is enabled; it is where the reply does not say.
pub fn is_element_enabled(session: &Session, eid: &str) -> (plan: Result<Plan, W3cError>)
    ensures
        plan_result(plan) == on_element(
            session@.elements,
            eid@,
            "/element/enabled"@,
            None,
            AnswerView::Field("enabled"@, JsonValue::Bool(true)),
            RecoveryView::Propagate,
        ),
{
    element_plan(session, eid, "/element/enabled", Answer::Field(String::from_str("enabled"), Json::Bool(true)))
}


/// Whether an element is selected; it is not where the reply does not say.
pub fn is_element_selected(session: &Session, eid: &str) -> (plan: Result<Plan, W3cError>)
    ensures
        plan_result(plan) == on_element(
            session@.elements,
            eid@,
            "/element/selected"@,
            None,
            AnswerView::Field("selected"@, JsonValue::Bool(false)),
            RecoveryView::Propagate,
        ),
{
    element_plan(session, eid, "/element/selected", Answer::Field(String::from_str("selected"), Json::Bool(false)))
}


/// Whether an element is shown; it is where the reply does not say.
pub fn is_element_displayed(session: &Session, eid: &str) -> (plan: Result<Plan, W3cError>)
    ensures
        plan_result(plan) == on_element(
            session@.elements,
            eid@,
            "/element/displayed"@,
            None,
            AnswerView::Field("displayed"@, JsonValue::Bool(true)),
            RecoveryView::Propagate,
        ),
{
    element_plan(session, eid, "/element/displayed", Answer::Field(String::from_str("displayed"), Json::Bool(true)))
}


/// A picture of an element.
pub fn element_screenshot(session: &Session, eid: &str) -> (plan: Result<Plan, W3cError>)
    ensures
        plan_result(plan) == on_element(
            session@.elements,
            eid@,
            "/screenshot/element"@,
            None,
            AnswerView::Field("data"@, JsonValue::Str(""@)),
            RecoveryView::Propagate,
        ),
{
    element_plan(session, eid, "/screenshot/element", field_text("data", ""))
}


/// The ARIA role of an element.
pub fn get_computed_role(session: &Session, eid: &str) -> (plan: Result<Plan, W3cError>)
    ensures
        plan_result(plan) == on_element(
            session@.elements,
            eid@,
            "/element/computed-role"@,
            None,
            AnswerView::Field("role"@, JsonValue::Str("generic"@)),
            RecoveryView::Propagate,
        ),
{
    element_plan(session, eid, "/element/computed-role", field_text("role", "generic"))
}


/// The accessible name of an element.
pub fn get_computed_label(session: &Session, eid: &str) -> (plan: Result<Plan, W3cError>)
    ensures
        plan_result(plan) == on_element(
            session@.elements,
            eid@,
            "/element/computed-label"@,
            None,
            AnswerView::Field("label"@, JsonValue::Str(""@)),
            RecoveryView::Propagate,
        ),
{
    element_plan(session, eid, "/element/computed-label", field_text("label", ""))
}


/// The value of the attribute `name` of an element.
pub fn get_element_attribute(session: &Session, eid: &str, name: &str) -> (plan: Result<Plan, W3cError>)
    ensures
        plan_result(plan) == on_element(
            session@.elements,
            eid@,
            "/element/attribute"@,
            Some(("name"@, JsonValue::Str(name@))),
            AnswerView::Field("value"@, JsonValue::Null),
            RecoveryView::Propagate,
        ),
{
    named_element_plan(
        session,
        eid,
        "/element/attribute",
        name,
        Answer::Field(String::from_str("value"), Json::Null),
        Recovery::Propagate,
    )
}


/// The value of the property `name` of an element.
pub fn get_element_property(session: &Session, eid: &str, name: &str) -> (plan: Result<Plan, W3cError>)
    ensures
        plan_result(plan) == on_element(
            session@.elements,
            eid@,
            "/element/property"@,
            Some(("name"@, JsonValue::Str(name@))),
            AnswerView::Field("value"@, JsonValue::Null),
            RecoveryView::Propagate,
        ),
{
    named_element_plan(
        session,
        eid,
        "/element/property",
        name,
        Answer::Field(String::from_str("value"), Json::Null),
        Recovery::Propagate,
    )
}


/// The name under which the embedded server is asked for the computed value of the
/// style property `name`.
pub open spec fn css_property(name: Seq<char>) -> Seq<char> {
    "__css__"@ + name
}

/// The computed value of the style property `name` of an element; the empty string
/// where the embedded server has no answer.
pub fn get_element_css(session: &Session, eid: &str, name: &str) -> (plan: Result<Plan, W3cError>)
    ensures
        plan_result(plan) == on_element(
            session@.elements,
            eid@,
            "/element/property"@,
            Some(("name"@, JsonValue::Str(css_property(name@)))),
            AnswerView::Field("value"@, JsonValue::Str(""@)),
            RecoveryView::EmptyText,
        ),
{
    let mut property = String::from_str("__css__");
    property.append(name);
    named_element_plan(
        session,
        eid,
        "/element/property",
        property.as_str(),
        field_text("value", ""),
        Recovery::EmptyText,
    )
}

/// The plan that sends the window to the address that `body` names in its member
/// `url`; a body without such a string is refused.
pub open spec fn navigation(body: JsonValue) -> Result<PlanView, Failure> {
    match body.str_at("url"@) {
        Some(url) => Ok(
            one(
                "/navigate/url"@,
                object_of("url"@, JsonValue::Str(url)),
                AnswerView::Null,
                RecoveryView::Propagate,
            ),
        ),
        None => Err(failure(ErrorKind::InvalidArgument, "Missing url"@)),
    }
}

/// Sends the window to the address that `body` names.
pub fn navigate_to(body: &Json) -> (plan: Result<Plan, W3cError>)
    ensures
        plan_result(plan) == navigation(body@),
{
    match body.str_at("url") {
        Some(url) => Ok(
            single("/navigate/url", object1("url", Json::text(url)), Answer::Null, Recovery::Propagate),
        ),
        None => Err(W3cError::bad_request("Missing url")),
    }
}

/// The body that asks the embedded server to run the script of the request `body`:
/// its member `script` where that is a string, else the empty script, and its member
/// `args`, else no arguments.
pub open spec fn script_document(body: JsonValue) -> JsonValue {
    JsonValue::Object(
        seq![
            ("script"@, JsonValue::Str(body.str_or("script"@, ""@))),
            ("args"@, body.field_or("args"@, JsonValue::Array(Seq::empty()))),
        ],
    )
}

fn script_body(body: &Json) -> (out: Json)
    ensures
        out@ == script_document(body@),
{
    let mut entries = no_entries();
    put(&mut entries, "script", Json::Str(body.str_or("script", "")));
    put(&mut entries, "args", body.field_or("args", empty_array()));
    assert(entries_view(entries@) =~= script_document(body@)->Object_0);
    Json::object(entries)
}

/// Runs a script of the user and answers with what it returns. A failure is that of
/// the script, unless it tells that the script did not report in time: that one is
/// of unknown kind.
pub fn execute_sync(body: &Json) -> (plan: Plan)
    ensures
        plan@ == one(
            "/script/execute"@,
            script_document(body@),
            AnswerView::Field("value"@, JsonValue::Null),
            RecoveryView::Javascript,
        ),
{
    single(
        "/script/execute",
        script_body(body),
        Answer::Field(String::from_str("value"), Json::Null),
        Recovery::Javascript,
    )
}

/// Runs a script of the user that reports its result by a call, and answers with
/// that result. A failure is that of the script, unless it tells that the script did
/// not report in time: that one is of unknown kind.
pub fn execute_async(body: &Json) -> (plan: Plan)
    ensures
        plan@ == one(
            "/script/execute-async"@,
            script_document(body@),
            AnswerView::Field("value"@, JsonValue::Null),
            RecoveryView::Javascript,
        ),
{
    single(
        "/script/execute-async",
        script_body(body),
        Answer::Field(String::from_str("value"), Json::Null),
        Recovery::Javascript,
    )
}

/// The cookie `name`; that there is none is a failure of its own kind.
pub fn get_named_cookie(name: &str) -> (plan: Plan)
    ensures
        plan@ == one(
            "/cookie/get"@,
            object_of("name"@, JsonValue::Str(name@)),
            AnswerView::Cookie(name@),
            RecoveryView::Propagate,
        ),
{
    single(
        "/cookie/get",
        object1("name", Json::text(name)),
        Answer::Cookie(String::from_str(name)),
        Recovery::Propagate,
    )
}

/// Puts the cookie that `body` holds in its member `cookie` into the jar, an empty
/// one where it holds none.
pub fn add_cookie(body: &Json) -> (plan: Plan)
    ensures
        plan@ == one(
            "/cookie/add"@,
            object_of("cookie"@, body@.field_or("cookie"@, empty_object())),
            AnswerView::Null,
            RecoveryView::Propagate,
        ),
{
    single(
        "/cookie/add",
        object1("cookie", body.field_or("cookie", empty_body())),
        Answer::Null,
        Recovery::Propagate,
    )
}

/// Takes the cookie `name` out of the jar.
pub fn delete_cookie(name: &str) -> (plan: Plan)
    ensures
        plan@ == one(
            "/cookie/delete"@,
            object_of("name"@, JsonValue::Str(name@)),
            AnswerView::Null,
            RecoveryView::Propagate,
        ),
{
    single("/cookie/delete", object1("name", Json::text(name)), Answer::Null, Recovery::Propagate)
}

/// Makes the member `text` of `body` the answer of the open prompt, the empty text
/// where it is no string.
pub fn send_alert_text(body: &Json) -> (plan: Plan)
    ensures
        plan@ == one(
            "/alert/send-text"@,
            object_of("text"@, JsonValue::Str(body@.str_or("text"@, ""@))),
            AnswerView::Null,
            RecoveryView::Alert,
        ),
{
    single(
        "/alert/send-text",
        object1("text", Json::Str(body.str_or("text", ""))),
        Answer::Null,
        Recovery::Alert,
    )
}

/// The plan that makes the window of the handle that `body` names the current one.
/// A body without a string `handle` is refused; any failure of the embedded server
/// means that there is no such window.
pub open spec fn window_switch(body: JsonValue) -> Result<PlanView, Failure> {
    match body.str_at("handle"@) {
        Some(handle) => Ok(
            one(
                "/window/set-current"@,
                object_of("label"@, JsonValue::Str(handle)),
                AnswerView::Null,
                RecoveryView::Window(handle),
            ),
        ),
        None => Err(failure(ErrorKind::InvalidArgument, "Missing 'handle'"@)),
    }
}

/// Makes the window of the handle that `body` names the current one.
pub fn switch_to_window(body: &Json) -> (plan: Result<Plan, W3cError>)
    ensures
        plan_result(plan) == window_switch(body@),
{
    match body.str_at("handle") {
        Some(handle) => Ok(
            single(
                "/window/set-current",
                object1("label", Json::text(handle)),
                Answer::Null,
                Recovery::Window(String::from_str(handle)),
            ),
        ),
        None => Err(W3cError::bad_request("Missing 'handle'")),
    }
}

/// The document that names the frame element `r` to the embedded server: by its
/// selector and its position.
pub open spec fn frame_document(r: ElementRefView) -> JsonValue {
    JsonValue::Object(
        seq![
            ("selector"@, JsonValue::Str(r.selector)),
            ("index"@, JsonValue::Number(NumberValue::Unsigned(r.index))),
        ],
    )
}

/// The plan that switches to the frame that the member `id` of `body` names. No
/// `id` or null leads to the top; a whole number into the frame of that position; a
/// reference to an element of `table` into that element. A reference that the table
/// does not know is refused, and so is any other `id`.
pub open spec fn frame_switch(table: ElementTable, body: JsonValue) -> Result<PlanView, Failure> {
    let id = body.field_or("id"@, JsonValue::Null);
    if id.is_null() {
        Ok(
            one(
                "/frame/switch"@,
                object_of("id"@, JsonValue::Null),
                AnswerView::Null,
                RecoveryView::Propagate,
            ),
        )
    } else if id.as_u64() is Some {
        Ok(
            one(
                "/frame/switch"@,
                object_of("id"@, JsonValue::Number(NumberValue::Unsigned(id.as_u64()->0))),
                AnswerView::Null,
                RecoveryView::Propagate,
            ),
        )
    } else {
        match id.str_at(W3C_ELEMENT_KEY@) {
            Some(eid) => match find(table, eid) {
                Some(r) => Ok(
                    one(
                        "/frame/switch"@,
                        object_of("id"@, frame_document(r)),
                        AnswerView::Null,
                        RecoveryView::Propagate,
                    ),
                ),
                None => Err(failure(ErrorKind::NoSuchElement, no_element_message(eid))),
            },
            None => Err(failure(ErrorKind::InvalidArgument, "Invalid frame id"@)),
        }
    }
}

/// Switches to the frame that `body` names.
pub fn switch_to_frame(session: &Session, body: &Json) -> (plan: Result<Plan, W3cError>)
    ensures
        plan_result(plan) == frame_switch(session@.elements, body@),
{
    let id = match body.get("id") {
        Some(id) => id,
        None => {
            return Ok(
                single("/frame/switch", object1("id", Json::Null), Answer::Null, Recovery::Propagate),
            );
        },
    };
    if id.is_null() {
        return Ok(
            single("/frame/switch", object1("id", Json::Null), Answer::Null, Recovery::Propagate),
        );
    }
    if let Some(index) = id.as_u64() {
        return Ok(
            single(
                "/frame/switch",
                object1("id", Json::unsigned(index)),
                Answer::Null,
                Recovery::Propagate,
            ),
        );
    }
    match id.str_at(W3C_ELEMENT_KEY) {
        Some(eid) => match resolve_element(session, eid) {
            Ok(e) => {
                let mut entries = no_entries();
                put(&mut entries, "selector", Json::text(e.selector.as_str()));
                put(&mut entries, "index", Json::unsigned(e.index));
                assert(entries_view(entries@) =~= frame_document(e@)->Object_0);
                Ok(
                    single(
                        "/frame/switch",
                        object1("id", Json::object(entries)),
                        Answer::Null,
                        Recovery::Propagate,
                    ),
                )
            },
            Err(e) => Err(e),
        },
        None => Err(W3cError::bad_request("Invalid frame id")),
    }
}

/// The first request of the command that closes the current window: for the handle
/// of that window.
pub fn close_window() -> (plan: Plan)
    ensures
        plan@ == one(
            "/window/handle"@,
            empty_object(),
            AnswerView::Whole,
            RecoveryView::Propagate,
        ),
{
    single("/window/handle", empty_body(), Answer::Whole, Recovery::Propagate)
}

/// The label of the window to close, by the handle that the embedded server
/// answered with: the handle where it is a string, else `main`.
pub open spec fn label_to_close(handle: JsonValue) -> Seq<char> {
    match handle.as_str() {
        Some(label) => label,
        None => "main"@,
    }
}

/// The rest of the command that closes the current window: to close the window of
/// the handle that the embedded server answered with, then to ask for the handles of
/// the windows that are left, which is the answer.
pub fn close_window_by(handle: &Json) -> (plan: Plan)
    ensures
        plan@ == (PlanView {
            requests: seq![
                crate::plan::request(
                    "/window/close"@,
                    object_of("label"@, JsonValue::Str(label_to_close(handle@))),
                ),
                crate::plan::request("/window/handles"@, empty_object()),
            ],
            answer: AnswerView::Whole,
            recovery: RecoveryView::Propagate,
        }),
{
    let label = match handle.as_str() {
        Some(label) => Json::text(label),
        None => Json::text("main"),
    };
    let mut requests: Vec<crate::plan::AgentRequest> = Vec::new();
    requests.push(crate::plan::post("/window/close", object1("label", label)));
    requests.push(crate::plan::post("/window/handles", empty_body()));
    assert(crate::plan::requests_view(requests@) =~= seq![
        crate::plan::request(
            "/window/close"@,
            object_of("label"@, JsonValue::Str(label_to_close(handle@))),
        ),
        crate::plan::request("/window/handles"@, empty_object()),
    ]);
    Plan { requests, answer: Answer::Whole, recovery: Recovery::Propagate }
}

} // verus!

