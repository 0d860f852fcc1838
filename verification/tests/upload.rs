use tauri_webdriver::error::ErrorKind;
use tauri_webdriver::json::{Json, Number};
use tauri_webdriver::keys::{
    cannot_read, send_files, send_keys, send_keys_after, send_keys_after_tag,
    send_keys_after_type, upload_files, KeysStep, Question,
};
use tauri_webdriver::origin::{perform_actions, resolve_action, with_member};
use tauri_webdriver::session::Session;
use tauri_webdriver::upload::{
    file_entry, fits, mime_for_extension, mime_for_name, mime_from_extension, upload_name,
    upload_paths,
};

fn obj(entries: Vec<(&str, Json)>) -> Json {
    Json::Object(entries.into_iter().map(|(k, v)| (k.to_string(), v)).collect())
}

fn s(v: &str) -> Json {
    Json::Str(v.to_string())
}

fn n(v: u64) -> Json {
    Json::Number(Number::Unsigned(v))
}

fn session_with_input() -> Session {
    let mut session = Session::new(1);
    session.store_element_as(&obj(vec![("selector", s("input")), ("index", n(0))]), "f".to_string());
    session
}

#[test]
fn every_listed_extension_has_its_type() {
    let table = [
        ("txt", "text/plain"),
        ("html", "text/html"),
        ("htm", "text/html"),
        ("css", "text/css"),
        ("js", "application/javascript"),
        ("json", "application/json"),
        ("xml", "application/xml"),
        ("pdf", "application/pdf"),
        ("zip", "application/zip"),
        ("png", "image/png"),
        ("jpg", "image/jpeg"),
        ("jpeg", "image/jpeg"),
        ("gif", "image/gif"),
        ("svg", "image/svg+xml"),
        ("webp", "image/webp"),
        ("mp4", "video/mp4"),
        ("mp3", "audio/mpeg"),
    ];
    for (ext, mime) in table {
        assert_eq!(mime_for_extension(ext), mime);
        assert_eq!(mime_for_extension(&ext.to_uppercase()), mime);
        assert_eq!(mime_from_extension(&format!("/tmp/file.{}", ext)), mime);
    }
    assert_eq!(mime_for_extension(""), "application/octet-stream");
    assert_eq!(mime_for_extension("bin"), "application/octet-stream");
    assert_eq!(mime_for_extension("\u{212a}"), "application/octet-stream");
}

#[test]
fn the_extension_is_what_follows_the_last_full_stop_of_the_name() {
    assert_eq!(mime_for_name("b.png"), "image/png");
    assert_eq!(mime_for_name("archive.tar.zip"), "application/zip");
    assert_eq!(mime_for_name("B.PNG"), "image/png");
    assert_eq!(mime_for_name(".png"), "application/octet-stream");
    assert_eq!(mime_for_name("png"), "application/octet-stream");
    assert_eq!(mime_for_name("a."), "application/octet-stream");
    assert_eq!(mime_for_name("..png"), "image/png");
    assert_eq!(mime_from_extension("/tmp.d/file"), "application/octet-stream");
    assert_eq!(mime_from_extension("/tmp/b.png/"), "image/png");
    assert_eq!(mime_from_extension("/"), "application/octet-stream");
    assert_eq!(mime_from_extension("/tmp/.."), "application/octet-stream");
}

#[test]
fn the_type_agrees_with_the_extension_that_std_finds() {
    for p in ["/a/b.txt", "b.TXT", ".hidden", "a.b/c", "a.b/c.json", "x.", "dir.png/", "..", "a..gif", ""] {
        let ext = std::path::Path::new(p).extension().and_then(|e| e.to_str()).unwrap_or("");
        assert_eq!(mime_from_extension(p), mime_for_extension(ext), "on {:?}", p);
    }
}

#[test]
fn a_file_is_uploaded_under_the_last_component_of_its_path() {
    assert_eq!(upload_name("/tmp/a.txt"), "a.txt");
    assert_eq!(upload_name("b.png"), "b.png");
    assert_eq!(upload_name("/"), "file");
    assert_eq!(upload_name(""), "file");
}

#[test]
fn two_lines_name_two_files_in_their_order() {
    assert_eq!(upload_paths("/tmp/a.txt\n/tmp/b.png"), vec!["/tmp/a.txt", "/tmp/b.png"]);
}

#[test]
fn file_upload() {
    // Keys sent to a file input upload the files that the text names.
    let session = session_with_input();
    let body = obj(vec![("text", s("/tmp/a.txt\n/tmp/b.png"))]);
    let first = send_keys(&session, "f").expect("a known element");
    match first {
        KeysStep::Ask(question, r) => {
            assert_eq!(question, Question::Tag);
            assert_eq!(r.path, "/element/tag");
        }
        other => panic!("unexpected {:?}", other),
    }
    let second =
        send_keys_after(&session, "f", &body, Question::Tag, &obj(vec![("tag", s("INPUT"))])).unwrap();
    match second {
        KeysStep::Ask(question, r) => {
            assert_eq!(question, Question::Type);
            assert_eq!(r.path, "/element/attribute");
            assert_eq!(r.body.str_at("name"), Some("type"));
        }
        other => panic!("unexpected {:?}", other),
    }
    let third =
        send_keys_after(&session, "f", &body, Question::Type, &obj(vec![("value", s("file"))])).unwrap();
    let paths = match third {
        KeysStep::Upload(paths) => paths,
        other => panic!("unexpected {:?}", other),
    };
    assert_eq!(paths, vec!["/tmp/a.txt", "/tmp/b.png"]);
    let contents: [&[u8]; 2] = [b"hello", b"\x89PNG"];
    let mut files = Vec::new();
    for (path, data) in paths.iter().zip(contents.iter()) {
        assert!(fits(data.len()));
        files.push(file_entry(path, data));
    }
    assert_eq!(files.len(), 2);
    assert_eq!(files[0], obj(vec![("name", s("a.txt")), ("data", s("aGVsbG8=")), ("mime", s("text/plain"))]));
    assert_eq!(files[1].str_at("name"), Some("b.png"));
    assert_eq!(files[1].str_at("mime"), Some("image/png"));
    assert_eq!(files[1].str_at("data"), Some("iVBORw=="));
    let plan = send_files(&session, "f", files).expect("a known element");
    assert_eq!(plan.requests[0].path, "/element/set-files");
    assert_eq!(plan.requests[0].body.array_at("files").map(|f| f.len()), Some(2));
    assert_eq!(plan.requests[0].body.str_at("selector"), Some("input"));
}

#[test]
fn base64_is_the_standard_alphabet_with_padding() {
    let data = |bytes: &[u8]| file_entry("x", bytes).str_at("data").map(|d| d.to_string());
    assert_eq!(data(b""), Some("".to_string()));
    assert_eq!(data(b"a"), Some("YQ==".to_string()));
    assert_eq!(data(b"ab"), Some("YWI=".to_string()));
    assert_eq!(data(b"abc"), Some("YWJj".to_string()));
    assert_eq!(data(&[0xfb, 0xff]), Some("+/8=".to_string()));
    assert!(fits(0));
    assert!(!fits(usize::MAX));
}

#[test]
fn keys_are_typed_into_what_is_no_file_input() {
    let session = session_with_input();
    let body = obj(vec![("text", s("abc"))]);
    let typed = obj(vec![("selector", s("input")), ("index", n(0)), ("using", s("css")), ("text", s("abc"))]);
    match send_keys_after_tag(&session, "f", &body, &obj(vec![("tag", s("textarea"))])).unwrap() {
        KeysStep::Type(plan) => {
            assert_eq!(plan.requests[0].path, "/element/send-keys");
            assert_eq!(plan.requests[0].body, typed);
        }
        other => panic!("unexpected {:?}", other),
    }
    match send_keys_after_type(&session, "f", &body, &obj(vec![("value", s("text"))])).unwrap() {
        KeysStep::Type(plan) => assert_eq!(plan.requests[0].body, typed),
        other => panic!("unexpected {:?}", other),
    }
    match send_keys_after_type(&session, "f", &obj(vec![]), &obj(vec![("value", Json::Null)])).unwrap() {
        KeysStep::Type(plan) => assert_eq!(plan.requests[0].body.str_at("text"), Some("")),
        other => panic!("unexpected {:?}", other),
    }
    assert_eq!(send_keys(&session, "zz").expect_err("unknown").kind, ErrorKind::NoSuchElement);
    let e = cannot_read("/tmp/a.txt", "No such file");
    assert_eq!((e.kind, e.message.as_str()), (ErrorKind::InvalidArgument, "Cannot read file /tmp/a.txt: No such file"));
}

#[test]
fn an_origin_that_names_a_known_element_is_resolved() {
    let session = session_with_input();
    let key = "element-6066-11e4-a52e-4f735466cecf";
    let action = obj(vec![("type", s("pointerMove")), ("origin", obj(vec![(key, s("f"))])), ("x", n(1))]);
    let resolved = resolve_action(&session, &action);
    assert_eq!(
        resolved,
        obj(vec![
            ("type", s("pointerMove")),
            ("origin", obj(vec![(key, obj(vec![("selector", s("input")), ("index", n(0)), ("using", s("css"))]))])),
            ("x", n(1)),
        ])
    );
    let unknown = obj(vec![("origin", obj(vec![(key, s("zz"))]))]);
    assert_eq!(resolve_action(&session, &unknown), unknown);
    let plain = obj(vec![("origin", s("pointer"))]);
    assert_eq!(resolve_action(&session, &plain), plain);
    let body = obj(vec![(
        "actions",
        Json::Array(vec![
            obj(vec![("type", s("pointer")), ("actions", Json::Array(vec![action.copy(), plain.copy()]))]),
            obj(vec![("type", s("none"))]),
        ]),
    )]);
    let plan = perform_actions(&session, &body);
    assert_eq!(plan.requests[0].path, "/actions/perform");
    assert_eq!(
        plan.requests[0].body,
        obj(vec![(
            "actions",
            Json::Array(vec![
                obj(vec![("type", s("pointer")), ("actions", Json::Array(vec![resolved, plain]))]),
                obj(vec![("type", s("none"))]),
            ]),
        )])
    );
    assert_eq!(perform_actions(&session, &Json::Null).requests[0].body, Json::Null);
}

#[test]
fn a_member_is_replaced_in_its_place() {
    let v = obj(vec![("a", n(1)), ("b", n(2)), ("c", n(3))]);
    assert_eq!(with_member(&v, "b", s("x")), obj(vec![("a", n(1)), ("b", s("x")), ("c", n(3))]));
    assert_eq!(with_member(&v, "z", s("x")), v);
    assert_eq!(with_member(&Json::Null, "a", s("x")), Json::Null);
}

#[test]
fn the_files_that_were_read_are_uploaded_in_the_order_of_their_paths() {
    let session = session_with_input();
    let paths = vec!["/tmp/a.txt".to_string(), "/tmp/b.png".to_string()];
    let reads = vec![Ok(b"hello".to_vec()), Ok(b"\x89PNG".to_vec())];
    let plan = upload_files(&session, "f", &paths, &reads).expect("a plan");
    assert_eq!(plan.requests.len(), 1);
    assert_eq!(plan.requests[0].path, "/element/set-files");
    let files = plan.requests[0].body.array_at("files").expect("the files");
    assert_eq!(files.len(), 2);
    assert_eq!(files[0], obj(vec![("name", s("a.txt")), ("data", s("aGVsbG8=")), ("mime", s("text/plain"))]));
    assert_eq!(files[1], obj(vec![("name", s("b.png")), ("data", s("iVBORw==")), ("mime", s("image/png"))]));
    let none = upload_files(&session, "f", &Vec::new(), &Vec::new()).expect("a plan");
    assert_eq!(none.requests[0].body.array_at("files").map(|f| f.len()), Some(0));
}

#[test]
fn the_first_file_that_cannot_be_read_ends_the_upload() {
    let session = session_with_input();
    let paths = vec!["/tmp/a.txt".to_string(), "/tmp/gone".to_string(), "/tmp/also-gone".to_string()];
    let reads = vec![Ok(b"hello".to_vec()), Err("No such file".to_string()), Err("later".to_string())];
    let e = upload_files(&session, "f", &paths, &reads).expect_err("unreadable");
    assert_eq!((e.kind, e.message.as_str()), (ErrorKind::InvalidArgument, "Cannot read file /tmp/gone: No such file"));
    let stopped = vec![Ok(b"hello".to_vec()), Err("No such file".to_string())];
    let e = upload_files(&session, "f", &paths, &stopped).expect_err("unreadable");
    assert_eq!(e.message, "Cannot read file /tmp/gone: No such file");
    let e = upload_files(&session, "zz", &paths, &reads).expect_err("unknown element");
    assert_eq!(e.kind, ErrorKind::NoSuchElement);
}
