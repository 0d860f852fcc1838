use tauri_webdriver::error::ErrorKind;
use tauri_webdriver::json::{Json, Number};
use tauri_webdriver::session::{resolve_element, store_element, Session, Timeouts};

fn elem(selector: &str, index: u64, using: Option<&str>) -> Json {
    let mut entries = vec![
        ("selector".to_string(), Json::Str(selector.to_string())),
        ("index".to_string(), Json::Number(Number::Unsigned(index))),
    ];
    if let Some(u) = using {
        entries.push(("using".to_string(), Json::Str(u.to_string())));
    }
    Json::Object(entries)
}

#[test]
fn a_new_session_has_the_default_timeouts() {
    let s = Session::new(4444);
    assert_eq!(s.plugin_url(), "http://127.0.0.1:4444");
    assert_eq!(s.timeouts(), Timeouts { script: 30000, page_load: 300000, implicit: 0 });
    assert_eq!(Timeouts::default(), Timeouts { script: 30000, page_load: 300000, implicit: 0 });
    assert_eq!(s.element_count(), 0);
}

#[test]
fn stored_references_resolve() {
    let mut s = Session::new(1);
    let id = s.store_element_as(&elem("#b", 0, None), "e1".to_string());
    assert_eq!(id, Some("e1".to_string()));
    let r = resolve_element(&s, "e1").expect("stored");
    assert_eq!(r.selector, "#b");
    assert_eq!(r.index, 0);
    assert_eq!(r.using, "css");
    let id2 = s.store_element_as(&elem("//a", 2, Some("xpath")), "e2".to_string());
    assert_eq!(id2, Some("e2".to_string()));
    let r = resolve_element(&s, "e1").expect("still stored");
    assert_eq!(r.selector, "#b");
    let r2 = resolve_element(&s, "e2").expect("stored");
    assert_eq!((r2.selector.as_str(), r2.index, r2.using.as_str()), ("//a", 2, "xpath"));
}

#[test]
fn one_reference_has_one_id() {
    let mut s = Session::new(1);
    let first = s.store_element_as(&elem("#b", 0, None), "e1".to_string());
    let second = s.store_element_as(&elem("#b", 0, Some("css")), "e2".to_string());
    assert_eq!(first, second);
    assert_eq!(s.element_count(), 1);
    let other = s.store_element_as(&elem("#b", 1, None), "e3".to_string());
    assert_eq!(other, Some("e3".to_string()));
    assert_eq!(s.element_count(), 2);
}

#[test]
fn an_id_in_use_is_never_written_over() {
    let mut s = Session::new(1);
    assert_eq!(s.store_element_as(&elem("#a", 0, None), "e1".to_string()), Some("e1".to_string()));
    assert_eq!(s.store_element_as(&elem("#b", 0, None), "e1".to_string()), None);
    assert_eq!(s.element_count(), 1);
    assert_eq!(resolve_element(&s, "e1").map(|r| r.selector.clone()).ok(), Some("#a".to_string()));
    assert_eq!(s.existing_element(&elem("#a", 0, None)), Some("e1".to_string()));
    assert_eq!(s.existing_element(&elem("#b", 0, None)), None);
}

#[test]
fn missing_members_of_a_reference_have_defaults() {
    let mut s = Session::new(1);
    let id = s.store_element_as(&Json::Object(vec![]), "e".to_string()).unwrap();
    let r = resolve_element(&s, &id).unwrap();
    assert_eq!((r.selector.as_str(), r.index, r.using.as_str()), ("", 0, "css"));
}

#[test]
fn fresh_ids_differ() {
    let mut s = Session::new(1);
    let a = store_element(&mut s, &elem("#a", 0, None)).unwrap();
    let b = store_element(&mut s, &elem("#b", 0, None)).unwrap();
    assert_ne!(a, b);
    assert_eq!(a.len(), 36);
    assert_eq!(a.chars().filter(|c| *c == '-').count(), 4);
    let again = store_element(&mut s, &elem("#a", 0, None)).unwrap();
    assert_eq!(again, a);
}

#[test]
fn an_unknown_element_is_no_such_element() {
    let s = Session::new(1);
    let e = resolve_element(&s, "nope").unwrap_err();
    assert_eq!(e.kind, ErrorKind::NoSuchElement);
    assert_eq!(e.message, "Element nope not found");
    let e = s.resolve_shadow("nope").unwrap_err();
    assert_eq!(e.kind, ErrorKind::NoSuchShadowRoot);
    assert_eq!(e.message, "Shadow root nope not found");
}

#[test]
fn timeouts_round_trip() {
    let mut s = Session::new(1);
    let body = Json::Object(vec![
        ("script".to_string(), Json::Number(Number::Unsigned(1000))),
        ("pageLoad".to_string(), Json::Number(Number::Unsigned(2000))),
        ("implicit".to_string(), Json::Number(Number::Unsigned(3000))),
    ]);
    s.set_timeouts(&body);
    assert_eq!(s.get_timeouts(), body);
    assert_eq!(s.timeouts(), Timeouts { script: 1000, page_load: 2000, implicit: 3000 });
}

#[test]
fn timeouts_that_are_not_named_stay() {
    let mut s = Session::new(1);
    s.set_timeouts(&Json::Object(vec![
        ("implicit".to_string(), Json::Number(Number::Unsigned(5))),
        ("script".to_string(), Json::Str("soon".to_string())),
        ("pageLoad".to_string(), Json::Number(Number::Negative(-1))),
    ]));
    assert_eq!(s.timeouts(), Timeouts { script: 30000, page_load: 300000, implicit: 5 });
    s.set_timeouts(&Json::Null);
    assert_eq!(s.timeouts(), Timeouts { script: 30000, page_load: 300000, implicit: 5 });
}

#[test]
fn shadow_roots_are_stored_under_their_candidate() {
    let mut s = Session::new(1);
    s.store_element_as(&elem("#host", 0, None), "e1".to_string());
    let id = s.store_shadow_for("e1", "s1".to_string()).unwrap();
    assert_eq!(id, Some("s1".to_string()));
    let host = s.resolve_shadow("s1").unwrap();
    assert_eq!((host.host_selector.as_str(), host.host_index, host.host_using.as_str()), ("#host", 0, "css"));
    assert_eq!(s.store_shadow_for("e1", "s1".to_string()).unwrap(), None);
    assert_eq!(s.store_shadow_for("nope", "s2".to_string()).unwrap_err().kind, ErrorKind::NoSuchElement);
}
