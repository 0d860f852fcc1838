use tauri_webdriver::commands::{
    accept_alert, add_cookie, click_element, close_window, close_window_by, delete_cookie,
    execute_async, execute_sync, fullscreen_window, get_alert_text, get_all_cookies, get_element_attribute,
    get_element_css, get_element_rect, get_element_text, get_named_cookie, get_title, get_url,
    is_element_enabled, maximize_window, navigate_to, new_window, send_alert_text,
    set_window_rect, switch_to_frame, switch_to_parent_frame, switch_to_window,
};
use tauri_webdriver::error::{w3c_value, ErrorKind, W3cError};
use tauri_webdriver::json::{Json, Number};
use tauri_webdriver::plan::{
    finish, plugin_post, reply_unreadable, request_failed, respond, Answer, Plan, Recovery,
};
use tauri_webdriver::session::Session;

fn obj(entries: Vec<(&str, Json)>) -> Json {
    Json::Object(entries.into_iter().map(|(k, v)| (k.to_string(), v)).collect())
}

fn s(v: &str) -> Json {
    Json::Str(v.to_string())
}

fn n(v: u64) -> Json {
    Json::Number(Number::Unsigned(v))
}

fn session_with_button() -> Session {
    let mut session = Session::new(4001);
    session.store_element_as(&obj(vec![("selector", s("#b")), ("index", n(0))]), "e1".to_string());
    session
}

fn paths(plan: &Plan) -> Vec<&str> {
    plan.requests.iter().map(|r| r.path.as_str()).collect()
}

fn failure(r: Result<Json, W3cError>) -> (ErrorKind, String) {
    let e = r.expect_err("a failure");
    (e.kind, e.message)
}

#[test]
fn every_kind_of_failure_has_its_status_and_name() {
    let table = [
        (ErrorKind::InvalidSessionId, 404, "invalid session id"),
        (ErrorKind::NoSuchElement, 404, "no such element"),
        (ErrorKind::NoSuchShadowRoot, 404, "no such shadow root"),
        (ErrorKind::NoSuchWindow, 404, "no such window"),
        (ErrorKind::NoSuchCookie, 404, "no such cookie"),
        (ErrorKind::NoSuchAlert, 404, "no such alert"),
        (ErrorKind::InvalidArgument, 400, "invalid argument"),
        (ErrorKind::SessionNotCreated, 500, "session not created"),
        (ErrorKind::JavascriptError, 500, "javascript error"),
        (ErrorKind::UnknownError, 500, "unknown error"),
    ];
    for (kind, status, code) in table {
        assert_eq!(kind.status(), status);
        assert_eq!(kind.code(), code);
    }
}

#[test]
fn replies_and_failures_travel_in_an_envelope() {
    assert_eq!(w3c_value(Json::Null), obj(vec![("value", Json::Null)]));
    let (status, body) = respond(Ok(s("outer")));
    assert_eq!(status, 200);
    assert_eq!(body, obj(vec![("value", s("outer"))]));
    let (status, body) = respond(Err(W3cError::bad_request("Missing url")));
    assert_eq!(status, 400);
    assert_eq!(
        body,
        obj(vec![(
            "value",
            obj(vec![("error", s("invalid argument")), ("message", s("Missing url")), ("stacktrace", s(""))])
        )])
    );
    assert_eq!(W3cError::no_session().kind, ErrorKind::InvalidSessionId);
    assert_eq!(W3cError::no_session().message, "No active session");
    assert_eq!(W3cError::session_not_created("x").kind, ErrorKind::SessionNotCreated);
    assert_eq!(W3cError::unknown("x").kind, ErrorKind::UnknownError);
    assert_eq!(W3cError::javascript_error("x").kind, ErrorKind::JavascriptError);
    assert_eq!(W3cError::no_element("e").message, "Element e not found");
}

#[test]
fn the_reply_of_the_embedded_server_is_a_result_or_a_failure() {
    assert_eq!(plugin_post(true, s("x")).ok(), Some(s("x")));
    assert_eq!(
        failure(plugin_post(false, obj(vec![("error", s("no such alert"))]))),
        (ErrorKind::UnknownError, "no such alert".to_string())
    );
    assert_eq!(failure(plugin_post(false, Json::Null)), (ErrorKind::UnknownError, "plugin error".to_string()));
    assert_eq!(request_failed("refused").message, "plugin request failed: refused");
    assert_eq!(reply_unreadable("eof").message, "plugin response parse failed: eof");
}

#[test]
fn simple_commands_ask_one_thing() {
    let plan = get_url();
    assert_eq!(paths(&plan), vec!["/navigate/current"]);
    assert_eq!(plan.requests[0].body, Json::Object(vec![]));
    assert_eq!(finish(&plan, Ok(obj(vec![("url", s("tauri://localhost/"))]))).ok(), Some(s("tauri://localhost/")));
    assert_eq!(finish(&plan, Ok(obj(vec![]))).ok(), Some(s("")));
    assert_eq!(failure(finish(&plan, Err(W3cError::unknown("boom")))), (ErrorKind::UnknownError, "boom".to_string()));
    assert_eq!(finish(&switch_to_parent_frame(), Ok(s("ignored"))).ok(), Some(Json::Null));
    assert_eq!(finish(&get_all_cookies(), Ok(obj(vec![]))).ok(), Some(Json::Array(vec![])));
}

#[test]
fn window_commands_answer_with_the_rectangle() {
    assert_eq!(paths(&maximize_window()), vec!["/window/maximize", "/window/rect"]);
    assert_eq!(paths(&fullscreen_window()), vec!["/window/fullscreen", "/window/rect"]);
    let body = obj(vec![("x", n(1)), ("y", n(2))]);
    let plan = set_window_rect(&body);
    assert_eq!(paths(&plan), vec!["/window/set-rect", "/window/rect"]);
    assert_eq!(plan.requests[0].body, body);
    let rect = obj(vec![("x", n(1))]);
    assert_eq!(finish(&plan, Ok(rect.copy())).ok(), Some(rect));
    let plan = new_window(&obj(vec![("type", s("tab"))]));
    assert_eq!(
        finish(&plan, Ok(obj(vec![("handle", s("wd-1"))]))).ok(),
        Some(obj(vec![("handle", s("wd-1")), ("type", s("window"))]))
    );
}

#[test]
fn element_commands_name_the_element_by_its_reference() {
    let session = session_with_button();
    let plan = click_element(&session, "e1").expect("known element");
    assert_eq!(paths(&plan), vec!["/element/click"]);
    assert_eq!(plan.requests[0].body, obj(vec![("selector", s("#b")), ("index", n(0)), ("using", s("css"))]));
    assert_eq!(finish(&plan, Ok(Json::Null)).ok(), Some(Json::Null));
    let e = click_element(&session, "zz").expect_err("unknown element");
    assert_eq!((e.kind, e.message.as_str()), (ErrorKind::NoSuchElement, "Element zz not found"));
    let plan = get_element_text(&session, "e1").unwrap();
    assert_eq!(finish(&plan, Ok(obj(vec![("text", s("Go"))]))).ok(), Some(s("Go")));
    let plan = is_element_enabled(&session, "e1").unwrap();
    assert_eq!(finish(&plan, Ok(obj(vec![]))).ok(), Some(Json::Bool(true)));
    let plan = get_element_rect(&session, "e1").unwrap();
    assert_eq!(paths(&plan), vec!["/element/rect"]);
    let plan = get_element_attribute(&session, "e1", "href").unwrap();
    assert_eq!(plan.requests[0].body.str_at("name"), Some("href"));
    assert_eq!(finish(&plan, Ok(obj(vec![]))).ok(), Some(Json::Null));
}

#[test]
fn a_style_value_falls_back_to_the_empty_string() {
    let session = session_with_button();
    let plan = get_element_css(&session, "e1", "color").unwrap();
    assert_eq!(paths(&plan), vec!["/element/property"]);
    assert_eq!(plan.requests[0].body.str_at("name"), Some("__css__color"));
    assert_eq!(finish(&plan, Err(W3cError::unknown("boom"))).ok(), Some(s("")));
    assert_eq!(finish(&plan, Ok(obj(vec![("value", s("red"))]))).ok(), Some(s("red")));
}

#[test]
fn navigation_needs_an_address() {
    let plan = navigate_to(&obj(vec![("url", s("https://example.org"))])).unwrap();
    assert_eq!(plan.requests[0].body, obj(vec![("url", s("https://example.org"))]));
    let e = navigate_to(&obj(vec![("url", n(1))])).expect_err("no address");
    assert_eq!((e.kind, e.message.as_str()), (ErrorKind::InvalidArgument, "Missing url"));
}

#[test]
fn a_failing_script_is_a_javascript_error() {
    let plan = execute_sync(&obj(vec![("script", s("alert('hi')"))]));
    assert_eq!(plan.requests[0].body, obj(vec![("script", s("alert('hi')")), ("args", Json::Array(vec![]))]));
    assert_eq!(finish(&plan, Ok(obj(vec![("value", Json::Null)]))).ok(), Some(Json::Null));
    assert_eq!(
        failure(finish(&plan, Err(W3cError::unknown("x is not defined")))),
        (ErrorKind::JavascriptError, "x is not defined".to_string())
    );
}

#[test]
fn a_hanging_script_is_an_unknown_error() {
    let hung = || plugin_post(false, obj(vec![("error", s("script timed out"))]));
    let plan = execute_sync(&obj(vec![("script", s("while(true){}"))]));
    assert_eq!(failure(finish(&plan, hung())), (ErrorKind::UnknownError, "script timed out".to_string()));
    let (status, body) = respond(finish(&plan, hung()));
    assert_eq!(status, 500);
    assert_eq!(body.get("value").and_then(|v| v.str_at("error")), Some("unknown error"));
    assert_eq!(body.get("value").and_then(|v| v.str_at("message")), Some("script timed out"));
    let plan = execute_async(&obj(vec![("script", s("/* never calls back */"))]));
    assert_eq!(
        failure(finish(&plan, plugin_post(false, obj(vec![("error", s("async script timed out"))])))),
        (ErrorKind::UnknownError, "async script timed out".to_string())
    );
    assert_eq!(
        failure(finish(&plan, Err(W3cError::unknown("script timed out after all")))),
        (ErrorKind::JavascriptError, "script timed out after all".to_string())
    );
}

#[test]
fn alert() {
    // The script returns null without blocking; the text is read; after the accept
    // there is no alert any more.
    let run = execute_sync(&obj(vec![("script", s("alert('hi')"))]));
    assert_eq!(finish(&run, Ok(obj(vec![("value", Json::Null)]))).ok(), Some(Json::Null));
    let text = get_alert_text();
    assert_eq!(finish(&text, Ok(obj(vec![("text", s("hi"))]))).ok(), Some(s("hi")));
    assert_eq!(finish(&accept_alert(), Ok(Json::Null)).ok(), Some(Json::Null));
    let gone = finish(&text, plugin_post(false, obj(vec![("error", s("no such alert"))])));
    let (status, body) = respond(gone);
    assert_eq!(status, 404);
    assert_eq!(body.get("value").and_then(|v| v.str_at("error")), Some("no such alert"));
    assert_eq!(
        failure(finish(&text, Err(W3cError::unknown("script timed out")))),
        (ErrorKind::UnknownError, "script timed out".to_string())
    );
    let plan = send_alert_text(&obj(vec![]));
    assert_eq!(plan.requests[0].body, obj(vec![("text", s(""))]));
    assert!(matches!(plan.recovery, Recovery::Alert));
}

#[test]
fn cookies_are_asked_for_by_name() {
    let plan = get_named_cookie("k");
    assert_eq!(plan.requests[0].body, obj(vec![("name", s("k"))]));
    let record = obj(vec![("name", s("k")), ("value", s("v"))]);
    assert_eq!(finish(&plan, Ok(obj(vec![("cookie", record.copy())]))).ok(), Some(record.copy()));
    assert_eq!(
        failure(finish(&plan, Ok(obj(vec![("cookie", Json::Null)])))),
        (ErrorKind::NoSuchCookie, "Cookie 'k' not found".to_string())
    );
    assert_eq!(failure(finish(&plan, Ok(obj(vec![])))).0, ErrorKind::NoSuchCookie);
    let add = add_cookie(&obj(vec![("cookie", record.copy())]));
    assert_eq!(add.requests[0].body, obj(vec![("cookie", record)]));
    assert_eq!(add_cookie(&Json::Null).requests[0].body, obj(vec![("cookie", Json::Object(vec![]))]));
    assert_eq!(paths(&delete_cookie("k")), vec!["/cookie/delete"]);
    assert!(matches!(get_all_cookies().answer, Answer::Field(ref k, _) if k == "cookies"));
}

#[test]
fn a_window_that_cannot_be_switched_to_is_no_such_window() {
    let plan = switch_to_window(&obj(vec![("handle", s("wd-9"))])).unwrap();
    assert_eq!(plan.requests[0].body, obj(vec![("label", s("wd-9"))]));
    assert_eq!(
        failure(finish(&plan, Err(W3cError::unknown("anything")))),
        (ErrorKind::NoSuchWindow, "Window 'wd-9' not found".to_string())
    );
    let e = switch_to_window(&obj(vec![])).expect_err("no handle");
    assert_eq!((e.kind, e.message.as_str()), (ErrorKind::InvalidArgument, "Missing 'handle'"));
}

#[test]
fn frame_scoping() {
    // A switch into the first frame, the title of the top-level document, and back.
    let session = session_with_button();
    let plan = switch_to_frame(&session, &obj(vec![("id", n(0))])).unwrap();
    assert_eq!(paths(&plan), vec!["/frame/switch"]);
    assert_eq!(plan.requests[0].body, obj(vec![("id", n(0))]));
    assert_eq!(finish(&plan, Ok(Json::Null)).ok(), Some(Json::Null));
    let title = get_title();
    assert_eq!(paths(&title), vec!["/navigate/title"]);
    assert_eq!(finish(&title, Ok(obj(vec![("title", s("outer"))]))).ok(), Some(s("outer")));
    assert_eq!(paths(&switch_to_parent_frame()), vec!["/frame/parent"]);
}

#[test]
fn a_frame_is_named_by_null_a_number_or_an_element() {
    let session = session_with_button();
    assert_eq!(switch_to_frame(&session, &obj(vec![])).unwrap().requests[0].body, obj(vec![("id", Json::Null)]));
    assert_eq!(
        switch_to_frame(&session, &obj(vec![("id", Json::Null)])).unwrap().requests[0].body,
        obj(vec![("id", Json::Null)])
    );
    let by_element = obj(vec![("id", obj(vec![("element-6066-11e4-a52e-4f735466cecf", s("e1"))]))]);
    assert_eq!(
        switch_to_frame(&session, &by_element).unwrap().requests[0].body,
        obj(vec![("id", obj(vec![("selector", s("#b")), ("index", n(0))]))])
    );
    let unknown = obj(vec![("id", obj(vec![("element-6066-11e4-a52e-4f735466cecf", s("zz"))]))]);
    assert_eq!(switch_to_frame(&session, &unknown).expect_err("unknown").kind, ErrorKind::NoSuchElement);
    let e = switch_to_frame(&session, &obj(vec![("id", s("x"))])).expect_err("bad id");
    assert_eq!((e.kind, e.message.as_str()), (ErrorKind::InvalidArgument, "Invalid frame id"));
}

#[test]
fn closing_a_window_answers_with_those_that_are_left() {
    assert_eq!(paths(&close_window()), vec!["/window/handle"]);
    let plan = close_window_by(&s("wd-1"));
    assert_eq!(paths(&plan), vec!["/window/close", "/window/handles"]);
    assert_eq!(plan.requests[0].body, obj(vec![("label", s("wd-1"))]));
    assert_eq!(close_window_by(&Json::Null).requests[0].body, obj(vec![("label", s("main"))]));
    let left = Json::Array(vec![s("main")]);
    assert_eq!(finish(&plan, Ok(left.copy())).ok(), Some(left));
}
