use tauri_webdriver::error::ApiError;
use tauri_webdriver::frames::{position_of, window_by_label, AgentState};
use tauri_webdriver::json::{Json, Number};

fn frames(state: &AgentState) -> Vec<(String, u64)> {
    state.frames().iter().map(|f| (f.selector.clone(), f.index)).collect()
}

#[test]
fn switch_by_index_enters_the_iframe_of_that_position() {
    let mut s = AgentState::new();
    assert!(s.frame_switch(&Json::Number(Number::Unsigned(3))).is_ok());
    assert_eq!(frames(&s), vec![("iframe".to_string(), 3)]);
}

#[test]
fn switch_by_reference_enters_that_element() {
    let mut s = AgentState::new();
    s.frame_switch(&Json::Number(Number::Unsigned(0))).unwrap();
    let id = Json::Object(vec![
        ("selector".to_string(), Json::Str("#f".to_string())),
        ("index".to_string(), Json::Number(Number::Unsigned(2))),
    ]);
    s.frame_switch(&id).unwrap();
    assert_eq!(frames(&s), vec![("iframe".to_string(), 0), ("#f".to_string(), 2)]);
    let no_index = Json::Object(vec![("selector".to_string(), Json::Str("#g".to_string()))]);
    s.frame_switch(&no_index).unwrap();
    assert_eq!(frames(&s).last(), Some(&("#g".to_string(), 0)));
}

#[test]
fn switch_to_null_leads_to_the_top() {
    let mut s = AgentState::new();
    s.frame_switch(&Json::Number(Number::Unsigned(0))).unwrap();
    s.frame_switch(&Json::Number(Number::Unsigned(1))).unwrap();
    s.frame_switch(&Json::Null).unwrap();
    assert!(frames(&s).is_empty());
    assert!(!s.in_frame());
}

#[test]
fn a_frame_id_of_another_shape_is_refused() {
    let mut s = AgentState::new();
    s.frame_switch(&Json::Number(Number::Unsigned(0))).unwrap();
    match s.frame_switch(&Json::Object(vec![])) {
        Err(ApiError::Internal(m)) => assert_eq!(m, "frame element missing selector"),
        other => panic!("unexpected {:?}", other),
    }
    match s.frame_switch(&Json::Str("x".to_string())) {
        Err(ApiError::Internal(m)) => assert_eq!(m, "invalid frame id"),
        other => panic!("unexpected {:?}", other),
    }
    match s.frame_switch(&Json::Number(Number::Negative(-1))) {
        Err(ApiError::Internal(m)) => assert_eq!(m, "invalid frame id"),
        other => panic!("unexpected {:?}", other),
    }
    assert_eq!(frames(&s), vec![("iframe".to_string(), 0)]);
}

#[test]
fn parent_pops_one_level_and_stays_at_the_top() {
    let mut s = AgentState::new();
    s.frame_switch(&Json::Number(Number::Unsigned(0))).unwrap();
    s.frame_switch(&Json::Number(Number::Unsigned(1))).unwrap();
    s.frame_parent();
    assert_eq!(frames(&s), vec![("iframe".to_string(), 0)]);
    s.frame_parent();
    s.frame_parent();
    assert!(frames(&s).is_empty());
}

#[test]
fn switching_the_window_resets_the_frames() {
    let mut s = AgentState::new();
    s.frame_switch(&Json::Number(Number::Unsigned(0))).unwrap();
    assert!(s.window_set_current("wd-1", true).is_ok());
    assert_eq!(s.current_window(), Some("wd-1"));
    assert!(frames(&s).is_empty());
}

#[test]
fn an_unknown_window_leaves_the_context() {
    let mut s = AgentState::new();
    s.window_set_current("main", true).unwrap();
    s.frame_switch(&Json::Number(Number::Unsigned(0))).unwrap();
    match s.window_set_current("gone", false) {
        Err(ApiError::NotFound(m)) => assert_eq!(m, "window 'gone' not found"),
        other => panic!("unexpected {:?}", other),
    }
    assert_eq!(s.current_window(), Some("main"));
    assert_eq!(frames(&s).len(), 1);
}

#[test]
fn closing_the_current_window_forgets_it() {
    let mut s = AgentState::new();
    s.window_set_current("wd-1", true).unwrap();
    s.frame_switch(&Json::Number(Number::Unsigned(0))).unwrap();
    s.window_closed("other");
    assert_eq!(s.current_window(), Some("wd-1"));
    assert!(frames(&s).is_empty());
    s.window_closed("wd-1");
    assert_eq!(s.current_window(), None);
}

#[test]
fn the_default_window_is_main_or_the_first() {
    let known = vec!["a".to_string(), "main".to_string(), "b".to_string()];
    assert_eq!(window_by_label(None, &known), Some(1));
    assert_eq!(window_by_label(Some("b"), &known), Some(2));
    assert_eq!(window_by_label(Some("zz"), &known), None);
    let no_main = vec!["x".to_string(), "y".to_string()];
    assert_eq!(window_by_label(None, &no_main), Some(0));
    assert_eq!(window_by_label(None, &Vec::new()), None);
    assert_eq!(position_of(&vec!["a".to_string(), "a".to_string()], "a"), Some(0));
}
