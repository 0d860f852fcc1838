use tauri_webdriver::registry::Registry;
use tauri_webdriver::session::{check_session, get_session, take_session};

#[test]
fn a_registry_holds_each_key_once() {
    let mut r: Registry<u32> = Registry::new();
    assert_eq!(r.len(), 0);
    assert_eq!(r.insert("a".to_string(), 1), None);
    assert_eq!(r.insert("b".to_string(), 2), None);
    assert_eq!(r.insert("a".to_string(), 3), Some(3));
    assert_eq!(r.len(), 2);
    assert_eq!(r.get("a"), Some(&1));
    assert_eq!(r.get("b"), Some(&2));
    assert_eq!(r.get("c"), None);
    assert!(r.contains("a"));
    assert!(!r.contains("c"));
    assert_eq!(r.position("b"), Some(1));
    assert_eq!(r.key_at(0), "a");
    assert_eq!(*r.value_at(1), 2);
}

#[test]
fn an_entry_is_removed_exactly_once() {
    let mut r: Registry<&'static str> = Registry::new();
    r.insert("id-1".to_string(), "sink-1");
    r.insert("id-2".to_string(), "sink-2");
    assert_eq!(r.remove("id-1"), Some("sink-1"));
    assert_eq!(r.remove("id-1"), None);
    assert_eq!(r.len(), 1);
    assert_eq!(r.get("id-2"), Some(&"sink-2"));
    assert_eq!(r.remove("id-2"), Some("sink-2"));
    assert_eq!(r.len(), 0);
}

#[test]
fn session_lifecycle() {
    // A session is known from its creation to its deletion, and not after.
    let mut sessions: Registry<tauri_webdriver::session::Session> = Registry::new();
    let session = tauri_webdriver::session::Session::new(4001);
    let sid = tauri_webdriver::startup::open_session(&mut sessions, session).ok().expect("a free id");
    assert_eq!(sid.len(), 36);
    assert_eq!(
        get_session(&sessions, &sid).map(|s| s.plugin_url().to_string()).ok(),
        Some("http://127.0.0.1:4001".to_string())
    );
    assert!(take_session(&mut sessions, &sid).is_ok());
    assert!(take_session(&mut sessions, &sid).is_err());
    let e = match get_session(&sessions, &sid) {
        Err(e) => e,
        Ok(_) => panic!("the session was deleted"),
    };
    let (status, body) = e.into_response();
    assert_eq!(status, 404);
    assert_eq!(
        body.get("value").and_then(|v| v.str_at("error")),
        Some("invalid session id")
    );
}

#[test]
fn a_server_of_one_session_knows_it_by_its_id() {
    let held = Some(("s1".to_string(), 7u8));
    assert_eq!(check_session(&held, "s1").ok(), Some(&7));
    assert_eq!(check_session(&held, "s2").map_err(|e| e.kind).err(), Some(tauri_webdriver::error::ErrorKind::InvalidSessionId));
    let none: Option<(String, u8)> = None;
    assert_eq!(check_session(&none, "s1").map_err(|e| e.message).err(), Some("No active session".to_string()));
}
