use tauri_webdriver::commands::click_element;
use tauri_webdriver::error::ErrorKind;
use tauri_webdriver::find::{
    active_element_found, active_element_found_as, all_found, all_found_as, extract_locator,
    find_all_in_shadow, find_element, find_element_from_element, find_elements, find_in_shadow,
    first_found, first_found_as, fresh_ids, get_active_element, get_shadow_root,
    shadow_root_found, shadow_root_found_as, Scope,
};
use tauri_webdriver::json::{Json, Number};
use tauri_webdriver::plan::finish;
use tauri_webdriver::session::{resolve_element, Session};

fn obj(entries: Vec<(&str, Json)>) -> Json {
    Json::Object(entries.into_iter().map(|(k, v)| (k.to_string(), v)).collect())
}

fn s(v: &str) -> Json {
    Json::Str(v.to_string())
}

fn n(v: u64) -> Json {
    Json::Number(Number::Unsigned(v))
}

fn locator(using: &str, value: &str) -> Json {
    obj(vec![("using", s(using)), ("value", s(value))])
}

fn reference(id: &str) -> Json {
    obj(vec![("element-6066-11e4-a52e-4f735466cecf", s(id))])
}

fn found(items: Vec<Json>) -> Json {
    obj(vec![("elements", Json::Array(items))])
}

fn item(selector: &str, index: u64) -> Json {
    obj(vec![("selector", s(selector)), ("index", n(index))])
}

#[test]
fn locators_are_rewritten_for_the_embedded_server() {
    let ok = |using: &str, value: &str| extract_locator(&locator(using, value)).ok();
    assert_eq!(ok("css selector", "#b"), Some(("css".to_string(), "#b".to_string())));
    assert_eq!(ok("tag name", "button"), Some(("css".to_string(), "button".to_string())));
    assert_eq!(ok("xpath", "//a"), Some(("xpath".to_string(), "//a".to_string())));
    assert_eq!(ok("partial link text", "v"), Some(("xpath".to_string(), "//a[contains(.,'v')]".to_string())));
}

#[test]
fn link_text_matches_the_normalized_text_of_an_anchor() {
    assert_eq!(
        extract_locator(&locator("link text", "v")).ok(),
        Some(("xpath".to_string(), "//a[normalize-space()='v']".to_string()))
    );
    assert_eq!(
        extract_locator(&locator("link text", "a  b")).ok(),
        Some(("xpath".to_string(), "//a[normalize-space()='a  b']".to_string()))
    );
}

#[test]
fn a_locator_that_is_incomplete_or_unknown_is_refused() {
    let e = extract_locator(&obj(vec![("value", s("x"))])).expect_err("no using");
    assert_eq!((e.kind, e.message.as_str()), (ErrorKind::InvalidArgument, "Missing 'using'"));
    let e = extract_locator(&obj(vec![("using", s("css selector"))])).expect_err("no value");
    assert_eq!((e.kind, e.message.as_str()), (ErrorKind::InvalidArgument, "Missing 'value'"));
    let e = extract_locator(&obj(vec![("using", s("id")), ("value", n(1))])).expect_err("no value");
    assert_eq!(e.message, "Missing 'value'");
    let e = extract_locator(&locator("id", "b")).expect_err("unknown strategy");
    assert_eq!((e.kind, e.message.as_str()), (ErrorKind::InvalidArgument, "Unsupported locator strategy: id"));
    let e = extract_locator(&locator("CSS selector", "b")).expect_err("unknown strategy");
    assert_eq!(e.message, "Unsupported locator strategy: CSS selector");
}

#[test]
fn find_and_click() {
    // A find, a click on what was found, and the same find again: one id.
    let mut session = Session::new(4001);
    let search = find_element(&locator("css selector", "#b")).expect("a search");
    assert_eq!(search.request.path, "/element/find");
    assert_eq!(search.request.body, obj(vec![("using", s("css")), ("value", s("#b"))]));
    assert_eq!(search.scope, Scope::Document);
    let reply = found(vec![item("#b", 0)]);
    let answer = first_found(&mut session, &search, &reply).expect("an element");
    let eid = answer.str_at("element-6066-11e4-a52e-4f735466cecf").expect("an id").to_string();
    let click = click_element(&session, &eid).expect("a known element");
    assert_eq!(click.requests[0].path, "/element/click");
    assert_eq!(finish(&click, Ok(Json::Null)).ok(), Some(Json::Null));
    let again = first_found(&mut session, &search, &reply).expect("an element");
    assert_eq!(again, reference(&eid));
    assert_eq!(session.element_count(), 1);
}

#[test]
fn a_search_that_finds_nothing_is_no_such_element() {
    let mut session = Session::new(1);
    let search = find_element(&locator("link text", "v")).unwrap();
    let e = first_found_as(&mut session, &search, &found(vec![]), "e1".to_string()).expect_err("none");
    assert_eq!(e.kind, ErrorKind::NoSuchElement);
    assert_eq!(e.message, "No element found with xpath: //a[normalize-space()='v']");
    let e = first_found_as(&mut session, &search, &obj(vec![]), "e1".to_string()).expect_err("none");
    assert_eq!(e.kind, ErrorKind::NoSuchElement);
    assert_eq!(session.element_count(), 0);
}

#[test]
fn the_first_of_the_found_is_the_answer() {
    let mut session = Session::new(1);
    let search = find_element(&locator("css selector", "li")).unwrap();
    let reply = found(vec![item("li", 0), item("li", 1)]);
    assert_eq!(first_found_as(&mut session, &search, &reply, "e1".to_string()).ok(), Some(reference("e1")));
    assert_eq!(session.element_count(), 1);
    assert_eq!(resolve_element(&session, "e1").map(|r| r.index).ok(), Some(0));
    let e = first_found_as(&mut session, &search, &found(vec![item("li", 1)]), "e1".to_string()).expect_err("taken");
    assert_eq!(e.kind, ErrorKind::UnknownError);
    assert_eq!(session.element_count(), 1);
}

#[test]
fn all_of_the_found_are_answered_in_their_order() {
    let mut session = Session::new(1);
    session.store_element_as(&item("li", 1), "old".to_string());
    let reply = found(vec![item("li", 0), item("li", 1), item("li", 2)]);
    let ids = vec!["a".to_string(), "b".to_string(), "c".to_string()];
    let answer = all_found_as(&mut session, &reply, &ids).expect("a list");
    assert_eq!(answer, Json::Array(vec![reference("a"), reference("old"), reference("c")]));
    assert_eq!(session.element_count(), 3);
    let same = all_found_as(&mut session, &reply, &Vec::new()).expect("a list");
    assert_eq!(same, answer);
    assert_eq!(all_found_as(&mut session, &obj(vec![]), &ids).ok(), Some(Json::Array(vec![])));
    let search = find_elements(&locator("css selector", "li")).unwrap();
    assert_eq!(search.request.path, "/element/find");
}

#[test]
fn two_equal_finds_give_equal_ids() {
    let mut session = Session::new(1);
    let reply = found(vec![item("li", 0), item("li", 1)]);
    let first = all_found(&mut session, &reply).expect("a list");
    let second = all_found(&mut session, &reply).expect("a list");
    assert_eq!(first, second);
    assert_eq!(session.element_count(), 2);
    assert_eq!(fresh_ids(3).len(), 3);
}

#[test]
fn a_search_below_an_element_names_its_parent() {
    let mut session = Session::new(1);
    session.store_element_as(&obj(vec![("selector", s("//ul")), ("index", n(1)), ("using", s("xpath"))]), "p".to_string());
    let search = find_element_from_element(&session, "p", &locator("tag name", "li")).unwrap();
    assert_eq!(search.request.path, "/element/find-from");
    assert_eq!(
        search.request.body,
        obj(vec![
            ("parent_selector", s("//ul")),
            ("parent_index", n(1)),
            ("parent_using", s("xpath")),
            ("using", s("css")),
            ("value", s("li")),
        ])
    );
    let e = first_found_as(&mut session, &search, &found(vec![]), "x".to_string()).expect_err("none");
    assert_eq!(e.message, "No child element found with css: li");
    let e = find_element_from_element(&session, "zz", &obj(vec![])).expect_err("unknown parent");
    assert_eq!(e.kind, ErrorKind::NoSuchElement);
    let e = find_element_from_element(&session, "p", &obj(vec![])).expect_err("no locator");
    assert_eq!(e.kind, ErrorKind::InvalidArgument);
}

#[test]
fn a_shadow_root_is_known_by_its_host() {
    let mut session = Session::new(1);
    session.store_element_as(&item("#host", 0), "h".to_string());
    let request = get_shadow_root(&session, "h").expect("a known element");
    assert_eq!(request.path, "/element/shadow");
    assert_eq!(request.body, obj(vec![("selector", s("#host")), ("index", n(0)), ("using", s("css"))]));
    assert_eq!(get_shadow_root(&session, "zz").expect_err("unknown").kind, ErrorKind::NoSuchElement);
    let none = obj(vec![("hasShadow", Json::Bool(false))]);
    let e = shadow_root_found_as(&mut session, "h", &none, "s1".to_string()).expect_err("no shadow");
    assert_eq!((e.kind, e.message.as_str()), (ErrorKind::NoSuchShadowRoot, "Element h does not have a shadow root"));
    let e = shadow_root_found_as(&mut session, "h", &obj(vec![]), "s1".to_string()).expect_err("no shadow");
    assert_eq!(e.kind, ErrorKind::NoSuchShadowRoot);
    let yes = obj(vec![("hasShadow", Json::Bool(true))]);
    let answer = shadow_root_found_as(&mut session, "h", &yes, "s1".to_string()).expect("a shadow root");
    assert_eq!(answer, obj(vec![("shadow-6066-11e4-a52e-4f735466cecf", s("s1"))]));
    let random = shadow_root_found(&mut session, "h", &yes).expect("a shadow root");
    let sid = random.str_at("shadow-6066-11e4-a52e-4f735466cecf").unwrap().to_string();
    assert_eq!(sid.len(), 36);
    let search = find_in_shadow(&session, "s1", &locator("css selector", "button")).unwrap();
    assert_eq!(search.request.path, "/shadow/find");
    assert_eq!(
        search.request.body,
        obj(vec![
            ("host_selector", s("#host")),
            ("host_index", n(0)),
            ("host_using", s("css")),
            ("using", s("css")),
            ("value", s("button")),
        ])
    );
    let e = first_found_as(&mut session, &search, &found(vec![]), "x".to_string()).expect_err("none");
    assert_eq!(e.message, "No element found in shadow with css: button");
    let e = find_all_in_shadow(&session, "zz", &locator("css selector", "b")).expect_err("unknown");
    assert_eq!((e.kind, e.message.as_str()), (ErrorKind::NoSuchShadowRoot, "Shadow root zz not found"));
}

#[test]
fn the_focused_element_gets_an_id() {
    let mut session = Session::new(1);
    assert_eq!(get_active_element().path, "/element/active");
    let e = active_element_found_as(&mut session, &obj(vec![("element", Json::Null)]), "a".to_string())
        .expect_err("none");
    assert_eq!((e.kind, e.message.as_str()), (ErrorKind::NoSuchElement, "No element is focused"));
    assert_eq!(active_element_found_as(&mut session, &obj(vec![]), "a".to_string()).expect_err("none").kind, ErrorKind::NoSuchElement);
    let reply = obj(vec![("element", item("[data-wd-active]", 0))]);
    assert_eq!(active_element_found_as(&mut session, &reply, "a".to_string()).ok(), Some(reference("a")));
    assert_eq!(active_element_found(&mut session, &reply).ok(), Some(reference("a")));
}
