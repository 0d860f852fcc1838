use tauri_webdriver::endpoints::{
    cookie_add, cookie_delete, cookie_delete_all, cookie_get, cookie_get_all, element_attribute,
    element_click, element_find, element_find_from, element_set_files, element_text,
    navigate_current, navigate_title, new_window_label, print_page, screenshot, screenshot_element,
    script_execute, script_execute_async, shadow_find, window_handles_reply, window_new_reply,
    window_set_rect, alert_accept, alert_get_text, CookieData, ElemReq, FileInfo,
};
use tauri_webdriver::error::ApiError;
use tauri_webdriver::frames::AgentState;
use tauri_webdriver::json::{Json, Number};
use tauri_webdriver::registry::Registry;
use tauri_webdriver::script::{
    abandon, build_frame_prefix, conclude, in_frame, join_pieces, register, render, settle,
    shape_reply, wrap_script, Outcome, Reply, ScriptKind, RENDEZVOUS_SECONDS,
};

fn css(selector: &str, index: u64) -> ElemReq {
    ElemReq { selector: selector.to_string(), index, using: None }
}

fn message(r: Result<Json, ApiError>) -> (u16, String) {
    match r {
        Err(ApiError::NotFound(m)) => (404, m),
        Err(ApiError::Internal(m)) => (500, m),
        Ok(_) => panic!("expected a failure"),
    }
}

const REPORT: &str = "window.__WEBDRIVER__.resolve(\"ID\",__r)}catch(__e){window.__WEBDRIVER__.resolve(\"ID\",{error:__e.name,message:__e.message,stacktrace:__e.stack||\"\"})}})()";

#[test]
fn a_script_at_the_top_level_sees_the_global_document() {
    let state = AgentState::new();
    assert!(!in_frame(&state));
    assert_eq!(build_frame_prefix(&state), "");
    assert_eq!(
        wrap_script(&state, "return 1", "ID"),
        format!("(function(){{try{{var __r=(function(){{return 1}})();{}", REPORT)
    );
}

#[test]
fn a_script_in_a_frame_gets_the_frame_document() {
    let mut state = AgentState::new();
    state.frame_switch(&Json::Number(Number::Unsigned(2))).unwrap();
    assert!(in_frame(&state));
    let step = "var __f=__doc.querySelectorAll(\"iframe\")[2];if(!__f)throw new Error('frame not found');__doc=__f.contentDocument;if(!__doc)throw new Error('cannot access frame document');";
    assert_eq!(build_frame_prefix(&state), format!("var __doc=document;{}", step));
    assert_eq!(
        wrap_script(&state, "return 1", "ID"),
        format!(
            "(function(){{try{{var __doc=document;{}var __r=(function(document){{return 1}}).call(null,__doc);{}",
            step, REPORT
        )
    );
}

#[test]
fn frames_are_entered_outermost_first() {
    let mut state = AgentState::new();
    state.frame_switch(&Json::Number(Number::Unsigned(0))).unwrap();
    state
        .frame_switch(&Json::Object(vec![
            ("selector".to_string(), Json::Str("#in\"ner".to_string())),
            ("index".to_string(), Json::Number(Number::Unsigned(1))),
        ]))
        .unwrap();
    let prefix = build_frame_prefix(&state);
    let outer = prefix.find("querySelectorAll(\"iframe\")[0]").expect("outer frame");
    let inner = prefix.find("querySelectorAll(\"#in\\\"ner\")[1]").expect("inner frame");
    assert!(outer < inner);
}

#[test]
fn the_url_and_title_are_read_from_the_window_in_any_frame() {
    let mut state = AgentState::new();
    let top_url = render(&state, &navigate_current(), "ID");
    let top_title = render(&state, &navigate_title(), "ID");
    state.frame_switch(&Json::Number(Number::Unsigned(0))).unwrap();
    let framed_url = render(&state, &navigate_current(), "ID");
    let framed_title = render(&state, &navigate_title(), "ID");
    assert!(top_url.contains("(function(){return window.location.href})()"));
    assert!(framed_url.contains("(function(document){return window.location.href}).call(null,__doc)"));
    assert!(top_title.contains("return window.document.title"));
    assert!(framed_title.contains("(function(document){return window.document.title})"));
    assert_eq!(navigate_current().pieces, vec!["return window.location.href"]);
    assert!(matches!(navigate_title().reply, Reply::Member(ref k) if k == "title"));
}

#[test]
fn quoting_escapes_what_would_end_the_literal() {
    let target = css("a[title=\"x\\y\"]\n\u{1}\u{e9}", 12);
    let e = element_text(&target);
    assert_eq!(e.kind, ScriptKind::Wrapped);
    assert_eq!(
        e.pieces,
        vec![
            "var el=document.querySelectorAll(\"a[title=\\\"x\\\\y\\\"]\\n\\u0001\u{e9}\")[12];if(!el)throw new Error(\"element not found\");return el.textContent||''"
        ]
    );
}

#[test]
fn an_element_is_looked_up_by_its_strategy() {
    let xpath = ElemReq { selector: "//a".to_string(), index: 3, using: Some("xpath".to_string()) };
    let shadow = ElemReq { selector: "wds-1".to_string(), index: 0, using: Some("shadow".to_string()) };
    let other = ElemReq { selector: "p".to_string(), index: 1, using: Some("css".to_string()) };
    assert_eq!(
        element_click(&xpath).pieces[0],
        "var __xr=document.evaluate(\"//a\",document,null,XPathResult.ORDERED_NODE_SNAPSHOT_TYPE,null);var el=__xr.snapshotItem(3);if(!el)throw new Error(\"element not found\");el.scrollIntoView({block:'center',inline:'center'});el.focus();el.click();return null"
    );
    assert!(element_click(&shadow).pieces[0].starts_with(
        "var el=window.__WEBDRIVER__.findElementInShadow(\"wds-1\");if(!el)throw new Error(\"shadow element not found or stale\");"
    ));
    assert!(element_click(&other).pieces[0].starts_with("var el=document.querySelectorAll(\"p\")[1];"));
    assert!(matches!(element_click(&other).reply, Reply::Null));
    let attr = element_attribute(&other, "type");
    assert!(attr.pieces[0].ends_with("return el.getAttribute(\"type\")"));
    assert!(matches!(attr.reply, Reply::Member(ref k) if k == "value"));
}

#[test]
fn find_lists_references_by_strategy() {
    let c = element_find("css", "#b");
    assert_eq!(
        c.pieces[0],
        "var els=document.querySelectorAll(\"#b\");var a=[];for(var i=0;i<els.length;i++)a.push({selector:\"#b\",index:i});return a"
    );
    let x = element_find("xpath", "//a[normalize-space()='v']");
    assert!(x.pieces[0].starts_with("var r=document.evaluate(\"//a[normalize-space()='v']\",document,"));
    assert!(x.pieces[0].contains("using:\"xpath\""));
    assert!(matches!(x.reply, Reply::Member(ref k) if k == "elements"));
    let from = element_find_from(&css("#p", 0), "css", "li");
    assert!(from.pieces[0].starts_with("if(!window.__wdFindFromCtr)window.__wdFindFromCtr=0;var parent=document.querySelectorAll(\"#p\")[0];"));
    assert!(from.pieces[0].contains("parent.querySelectorAll(\"li\")"));
    assert!(from.pieces[0].contains("'wd-'+(++window.__wdFindFromCtr)"));
    let sh = shadow_find(&css("#host", 0), "button");
    assert!(sh.pieces[0].contains("window.__WEBDRIVER__.findElement(\"#host\",0)"));
    assert!(sh.pieces[0].contains("sr.querySelectorAll(\"button\")"));
    assert!(sh.pieces[0].contains("using:'shadow'"));
}

#[test]
fn files_are_handed_over_in_their_order() {
    let files = vec![
        FileInfo { name: "a.txt".to_string(), data: "YQ==".to_string(), mime: "text/plain".to_string() },
        FileInfo { name: "b.png".to_string(), data: "Yg==".to_string(), mime: "image/png".to_string() },
    ];
    let e = element_set_files(&css("input", 0), &files);
    let js = &e.pieces[0];
    assert!(js.contains("var _files=[{\"name\":\"a.txt\",\"data\":\"YQ==\",\"mime\":\"text/plain\"},{\"name\":\"b.png\",\"data\":\"Yg==\",\"mime\":\"image/png\"}];"));
    assert!(js.contains("throw new Error('element is not a file input')"));
    assert!(js.ends_with("return null"));
    let none = element_set_files(&css("input", 0), &Vec::new());
    assert!(none.pieces[0].contains("var _files=[];"));
}

#[test]
fn user_scripts_are_called_with_their_arguments() {
    let e = script_execute("return arguments[0]", "[1,\"a\"]");
    assert_eq!(
        e.pieces,
        vec!["var __args=[1,\"a\"];return (function(){return arguments[0]}).apply(null,__args)"]
    );
    let a = script_execute_async("arguments[0](5)", "[]");
    assert_eq!(a.kind, ScriptKind::Async);
    assert_eq!(a.pieces.len(), 3);
    let state = AgentState::new();
    assert_eq!(
        render(&state, &a, "ID"),
        "(function(){var __args=[];var __done=function(r){window.__WEBDRIVER__.resolve(\"ID\",r)};__args.push(__done);try{(function(){arguments[0](5)}).apply(null,__args)}catch(__e){window.__WEBDRIVER__.resolve(\"ID\",{error:__e.name,message:__e.message,stacktrace:__e.stack||\"\"})}})();"
    );
}

#[test]
fn pieces_are_joined_with_the_id_between_them() {
    assert_eq!(join_pieces(&vec![], "ID"), "");
    assert_eq!(join_pieces(&vec!["a".to_string()], "ID"), "a");
    assert_eq!(join_pieces(&vec!["a".to_string(), "b".to_string(), "c".to_string()], "-"), "a-b-c");
}

#[test]
fn the_element_picture_is_as_large_as_the_rounded_up_rectangle() {
    let e = screenshot_element(&css("#b", 0));
    assert_eq!(e.kind, ScriptKind::Callback);
    let js = render(&AgentState::new(), &e, "ID");
    assert!(js.contains("c.width=Math.ceil(rect.width);c.height=Math.ceil(rect.height);"));
    assert!(js.contains("window.__WEBDRIVER__.findElement(\"#b\",0)"));
    assert!(!js.contains("__CALLBACK_ID__"));
    assert_eq!(js.matches("resolve(\"ID\"").count(), 5);
    let x = ElemReq { selector: "//b".to_string(), index: 1, using: Some("xpath".to_string()) };
    assert!(render(&AgentState::new(), &screenshot_element(&x), "ID").contains("findElementByXPath(\"//b\",1)"));
    let page = render(&AgentState::new(), &screenshot(), "ID");
    assert!(page.contains("c.toDataURL('image/png')"));
    assert_eq!(page.matches("resolve(\"ID\"").count(), 4);
}

#[test]
fn the_printed_file_is_a_pdf_of_version_1_4() {
    let js = render(&AgentState::new(), &print_page(), "ID");
    assert!(js.contains("addObj('%PDF-1.4\\n');"));
    assert!(js.contains("startxref\\n'+xrefOff+'\\n%%EOF'"));
    assert!(js.contains("/Filter /ASCIIHexDecode"));
    assert!(js.contains("var pageW=612;var pageH=792;"));
    assert!(js.contains("btoa(pdf)"));
    assert_eq!(js.matches("resolve(\"ID\"").count(), 4);
}

#[test]
fn cookies_live_in_the_jar_of_the_bridge() {
    let c = CookieData {
        name: "k".to_string(),
        value: "v".to_string(),
        path: "/".to_string(),
        domain: None,
        secure: false,
        http_only: true,
        expiry: Some(1700000000),
    };
    assert_eq!(
        cookie_add(&c).pieces,
        vec!["window.__WEBDRIVER__.cookies[\"k\"]={name:\"k\",value:\"v\",path:\"/\",domain:window.location.hostname,secure:false,httpOnly:true,expiry:1700000000,sameSite:\"Lax\"};return null"]
    );
    let d = CookieData { domain: Some("example.org".to_string()), expiry: None, secure: true, http_only: false, ..c };
    let js = &cookie_add(&d).pieces[0];
    assert!(js.contains("domain:\"example.org\",secure:true,httpOnly:false,expiry:null,"));
    assert_eq!(cookie_get("k").pieces, vec!["var c=window.__WEBDRIVER__.cookies[\"k\"];return c||null"]);
    assert!(matches!(cookie_get("k").reply, Reply::Member(ref m) if m == "cookie"));
    assert_eq!(cookie_delete("k").pieces, vec!["delete window.__WEBDRIVER__.cookies[\"k\"];return null"]);
    assert!(cookie_delete_all().pieces[0].contains("delete s[k[i]]"));
    assert!(cookie_get_all().pieces[0].contains("cookies.push(store[keys[i]]);"));
    assert!(matches!(cookie_get_all().reply, Reply::Member(ref m) if m == "cookies"));
}

#[test]
fn alert_scripts_fail_without_an_open_dialog() {
    assert!(alert_get_text().pieces[0].contains("if(!d.open)throw new Error('no such alert');return d.text"));
    assert!(alert_accept().pieces[0].contains("if(d.type==='prompt'&&d.response===null)d.response=d.defaultValue||'';d.open=false;"));
}

#[test]
fn results_are_sorted_into_values_and_failures() {
    let ok = Json::Str("hi".to_string());
    assert_eq!(settle(ScriptKind::Wrapped, Outcome::Resolved(ok.copy())).ok(), Some(ok));
    assert_eq!(settle(ScriptKind::Wrapped, Outcome::Resolved(Json::Null)).ok(), Some(Json::Null));
    let thrown = Json::Object(vec![
        ("error".to_string(), Json::Str("Error".to_string())),
        ("message".to_string(), Json::Str("no such alert".to_string())),
        ("stacktrace".to_string(), Json::Str("".to_string())),
    ]);
    assert_eq!(message(settle(ScriptKind::Wrapped, Outcome::Resolved(thrown))), (500, "no such alert".to_string()));
    let odd = Json::Object(vec![
        ("error".to_string(), Json::Null),
        ("message".to_string(), Json::Number(Number::Unsigned(1))),
    ]);
    assert_eq!(message(settle(ScriptKind::Wrapped, Outcome::Resolved(odd))), (500, "script error".to_string()));
    let only_error = Json::Object(vec![("error".to_string(), Json::Str("x".to_string()))]);
    assert_eq!(settle(ScriptKind::Wrapped, Outcome::Resolved(only_error.copy())).ok(), Some(only_error));
    assert_eq!(message(settle(ScriptKind::Wrapped, Outcome::ChannelClosed)), (500, "result channel closed".to_string()));
}

#[test]
fn a_script_that_hangs_times_out() {
    assert_eq!(RENDEZVOUS_SECONDS, 30);
    assert_eq!(message(settle(ScriptKind::Wrapped, Outcome::TimedOut)), (500, "script timed out".to_string()));
    assert_eq!(message(settle(ScriptKind::Async, Outcome::TimedOut)), (500, "async script timed out".to_string()));
    assert_eq!(message(settle(ScriptKind::Callback, Outcome::TimedOut)), (500, "screenshot timed out".to_string()));
    assert_eq!(message(Err(ScriptKind::Wrapped.no_window())), (404, "no such window".to_string()));
    assert_eq!(message(Err(ScriptKind::Async.no_window())), (404, "no window".to_string()));
}

#[test]
fn replies_are_shaped_as_the_endpoint_says() {
    let v = Json::Str("x".to_string());
    assert_eq!(shape_reply(&Reply::Bare, v.copy()), v);
    assert_eq!(shape_reply(&Reply::Null, v.copy()), Json::Null);
    assert_eq!(
        shape_reply(&Reply::Member("text".to_string()), v.copy()),
        Json::Object(vec![("text".to_string(), v)])
    );
}

#[test]
fn a_wait_is_registered_under_a_fresh_id() {
    let mut pending: Registry<u8> = Registry::new();
    let a = register(&mut pending, 1).ok().expect("free id");
    let b = register(&mut pending, 2).ok().expect("free id");
    assert_ne!(a, b);
    assert_eq!(pending.len(), 2);
    assert_eq!(pending.remove(&a), Some(1));
    assert_eq!(pending.remove(&a), None);
    assert_eq!(pending.get(&b), Some(&2));
}

#[test]
fn window_answers() {
    let label = new_window_label();
    assert!(label.starts_with("wd-"));
    assert_eq!(label.len(), 39);
    assert_ne!(label, new_window_label());
    assert_eq!(
        window_new_reply("wd-1"),
        Json::Object(vec![
            ("handle".to_string(), Json::Str("wd-1".to_string())),
            ("type".to_string(), Json::Str("window".to_string())),
        ])
    );
    assert_eq!(
        window_handles_reply(&vec!["main".to_string(), "wd-1".to_string()]),
        Json::Array(vec![Json::Str("main".to_string()), Json::Str("wd-1".to_string())])
    );
    assert_eq!(window_set_rect(true, true, true, false), (true, false));
    assert_eq!(window_set_rect(true, false, true, true), (false, true));
}

#[test]
fn failures_of_the_embedded_server_carry_their_status() {
    let (status, body) = ApiError::not_found("no window").into_response();
    assert_eq!(status, 404);
    assert_eq!(body, Json::Object(vec![("error".to_string(), Json::Str("no window".to_string()))]));
    let (status, _) = ApiError::internal("boom").into_response();
    assert_eq!(status, 500);
}

#[test]
fn a_wait_is_closed_at_its_end_however_it_ended() {
    let mut pending: Registry<u8> = Registry::new();
    let a = register(&mut pending, 1).ok().expect("free id");
    let b = register(&mut pending, 2).ok().expect("free id");
    let c = register(&mut pending, 3).ok().expect("free id");
    assert_eq!(conclude(&mut pending, &a, ScriptKind::Wrapped, Outcome::Resolved(Json::Bool(true))).ok(), Some(Json::Bool(true)));
    assert!(!pending.contains(&a));
    assert_eq!(message(conclude(&mut pending, &b, ScriptKind::Wrapped, Outcome::TimedOut)), (500, "script timed out".to_string()));
    assert!(!pending.contains(&b));
    assert_eq!(message(Err(abandon(&mut pending, &c, "webview gone"))), (500, "webview gone".to_string()));
    assert!(!pending.contains(&c));
    assert_eq!(pending.len(), 0);
    assert_eq!(message(conclude(&mut pending, &a, ScriptKind::Async, Outcome::ChannelClosed)), (500, "result channel closed".to_string()));
}
