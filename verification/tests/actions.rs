use tauri_webdriver::actions::{
    action_js, actions_perform, actions_release, number_literal, pause_of, plan_tick, tick_count,
    MOUSE_MOVE,
};
use tauri_webdriver::error::ApiError;
use tauri_webdriver::json::{Json, Number};

fn obj(entries: Vec<(&str, Json)>) -> Json {
    Json::Object(entries.into_iter().map(|(k, v)| (k.to_string(), v)).collect())
}

fn s(v: &str) -> Json {
    Json::Str(v.to_string())
}

fn n(v: u64) -> Json {
    Json::Number(Number::Unsigned(v))
}

fn scenario() -> Json {
    obj(vec![(
        "actions",
        Json::Array(vec![
            obj(vec![
                ("type", s("pointer")),
                ("id", s("m")),
                (
                    "actions",
                    Json::Array(vec![
                        obj(vec![("type", s("pointerMove")), ("x", n(10)), ("y", n(10))]),
                        obj(vec![("type", s("pointerDown")), ("button", n(0))]),
                        obj(vec![("type", s("pointerUp")), ("button", n(0))]),
                    ]),
                ),
            ]),
            obj(vec![
                ("type", s("none")),
                ("id", s("w")),
                (
                    "actions",
                    Json::Array(vec![
                        obj(vec![("type", s("pause")), ("duration", n(0))]),
                        obj(vec![("type", s("pause")), ("duration", n(100))]),
                        obj(vec![("type", s("pause")), ("duration", n(0))]),
                    ]),
                ),
            ]),
        ]),
    )])
}

#[test]
fn action_ticks() {
    let ticks = actions_perform(&scenario()).expect("a plan");
    assert_eq!(ticks.len(), 3);
    let pauses: Vec<u64> = ticks.iter().map(|t| t.pause_ms).collect();
    assert_eq!(pauses, vec![0, 100, 0]);
    assert_eq!(pauses.iter().sum::<u64>(), 100);
    let first = ticks[0].script.as_ref().expect("a script");
    assert_eq!(
        *first,
        format!("window.__wdPointerX=10;window.__wdPointerY=10;{}return null", MOUSE_MOVE)
    );
    let second = ticks[1].script.as_ref().expect("a script");
    assert!(second.contains("new MouseEvent('mousedown'"));
    assert!(!second.contains("mouseup"));
    let third = ticks[2].script.as_ref().expect("a script");
    let up = third.find("new MouseEvent('mouseup'").expect("mouseup");
    let click = third.find("new MouseEvent('click'").expect("click");
    assert!(up < click);
    assert!(third.ends_with("return null"));
}

#[test]
fn the_number_of_ticks_is_the_length_of_the_longest_source() {
    let seqs = vec![
        obj(vec![("actions", Json::Array(vec![Json::Null]))]),
        obj(vec![("actions", Json::Array(vec![Json::Null, Json::Null, Json::Null]))]),
        obj(vec![("actions", s("none"))]),
        Json::Null,
    ];
    assert_eq!(tick_count(&seqs), 3);
    assert_eq!(tick_count(&Vec::new()), 0);
}

#[test]
fn a_tick_of_pauses_has_no_script() {
    let seqs = vec![
        obj(vec![("type", s("none")), ("actions", Json::Array(vec![obj(vec![("type", s("pause")), ("duration", n(5))])]))]),
        obj(vec![("type", s("key")), ("actions", Json::Array(vec![obj(vec![("duration", n(9))])]))]),
    ];
    let t = plan_tick(&seqs, 0);
    assert_eq!(t.script, None);
    assert_eq!(t.pause_ms, 9);
    let beyond = plan_tick(&seqs, 1);
    assert_eq!(beyond.script, None);
    assert_eq!(beyond.pause_ms, 0);
}

#[test]
fn a_request_without_actions_is_refused() {
    match actions_perform(&obj(vec![])) {
        Err(ApiError::Internal(m)) => assert_eq!(m, "Missing 'actions' array"),
        other => panic!("unexpected {:?}", other),
    }
    assert_eq!(actions_perform(&obj(vec![("actions", Json::Array(vec![]))])).map(|t| t.len()).ok(), Some(0));
    assert_eq!(actions_release(), Json::Null);
}

#[test]
fn keys_are_sent_to_the_focused_element() {
    let down = action_js("key", &obj(vec![("type", s("keyDown")), ("value", s("a"))]));
    assert_eq!(
        down,
        "(function(){var k=\"a\";var code=k.length===1?'Key'+k.toUpperCase():k;var tgt=document.activeElement||document.body;tgt.dispatchEvent(new KeyboardEvent('keydown',{key:k,code:code,bubbles:true,cancelable:true}))})();"
    );
    let up = action_js("key", &obj(vec![("type", s("keyUp")), ("value", s("\""))]));
    assert!(up.contains("var k=\"\\\"\";"));
    assert!(up.contains("new KeyboardEvent('keyup'"));
    assert_eq!(action_js("pointer", &obj(vec![("type", s("keyDown"))])), "");
    assert_eq!(action_js("key", &obj(vec![("type", s("pointerDown"))])), "");
}

#[test]
fn the_pointer_moves_by_its_origin() {
    let rel = action_js(
        "pointer",
        &obj(vec![("type", s("pointerMove")), ("origin", s("pointer")), ("x", Json::Number(Number::Negative(-5))), ("y", Json::Number(Number::Real("2.5".to_string())))]),
    );
    assert_eq!(
        rel,
        format!("window.__wdPointerX=(window.__wdPointerX||0)+-5;window.__wdPointerY=(window.__wdPointerY||0)+2.5;{}", MOUSE_MOVE)
    );
    let at = action_js(
        "pointer",
        &obj(vec![
            ("type", s("pointerMove")),
            ("x", n(1)),
            (
                "origin",
                obj(vec![(
                    "element-6066-11e4-a52e-4f735466cecf",
                    obj(vec![("selector", s("#b")), ("index", n(2)), ("using", s("css"))]),
                )]),
            ),
        ]),
    );
    assert_eq!(
        at,
        format!("(function(){{var el=document.querySelectorAll(\"#b\")[2];if(el){{var r=el.getBoundingClientRect();window.__wdPointerX=r.x+r.width/2+1;window.__wdPointerY=r.y+r.height/2+0;}}}})();{}", MOUSE_MOVE)
    );
    let unresolved = action_js(
        "pointer",
        &obj(vec![("type", s("pointerMove")), ("origin", obj(vec![("element-6066-11e4-a52e-4f735466cecf", s("id"))]))]),
    );
    assert_eq!(unresolved, MOUSE_MOVE);
    let viewport = action_js("pointer", &obj(vec![("type", s("pointerMove")), ("origin", s("viewport"))]));
    assert!(viewport.starts_with("window.__wdPointerX=0;window.__wdPointerY=0;"));
}

#[test]
fn the_wheel_turns_at_a_place() {
    let js = action_js(
        "wheel",
        &obj(vec![("type", s("scroll")), ("x", n(1)), ("y", n(2)), ("deltaX", n(3)), ("deltaY", Json::Number(Number::Negative(-4)))]),
    );
    assert_eq!(
        js,
        "(function(){var tgt=document.elementFromPoint(1,2)||document.body;tgt.dispatchEvent(new WheelEvent('wheel',{clientX:1,clientY:2,deltaX:3,deltaY:-4,bubbles:true,cancelable:true}))})();"
    );
}

#[test]
fn numbers_are_written_as_scripts_read_them() {
    assert_eq!(number_literal(None), "0");
    assert_eq!(number_literal(Some(&s("x"))), "0");
    assert_eq!(number_literal(Some(&n(42))), "42");
    assert_eq!(number_literal(Some(&Json::Number(Number::Negative(-42)))), "-42");
    assert_eq!(number_literal(Some(&Json::Number(Number::Negative(i64::MIN)))), "-9223372036854775808");
    assert_eq!(number_literal(Some(&Json::Number(Number::Negative(7)))), "7");
    assert_eq!(number_literal(Some(&Json::Number(Number::Real("0.25".to_string())))), "0.25");
}

#[test]
fn only_a_pause_asks_for_time() {
    assert_eq!(pause_of(&obj(vec![("type", s("pause")), ("duration", n(30))])), 30);
    assert_eq!(pause_of(&obj(vec![("duration", n(30))])), 30);
    assert_eq!(pause_of(&obj(vec![("type", s("pointerMove")), ("duration", n(30))])), 0);
    assert_eq!(pause_of(&obj(vec![("type", s("pause"))])), 0);
}
