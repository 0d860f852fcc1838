use tauri_webdriver::json::{no_entries, put, Json, Number};

fn sample() -> Json {
    Json::Object(vec![
        ("using".to_string(), Json::Str("css selector".to_string())),
        ("index".to_string(), Json::Number(Number::Unsigned(3))),
        ("neg".to_string(), Json::Number(Number::Negative(-3))),
        ("real".to_string(), Json::Number(Number::Real("1.5".to_string()))),
        ("flag".to_string(), Json::Bool(true)),
        ("none".to_string(), Json::Null),
        ("list".to_string(), Json::Array(vec![Json::Null, Json::Bool(false)])),
        ("using".to_string(), Json::Str("shadowed".to_string())),
    ])
}

#[test]
fn get_finds_the_first_member_of_a_name() {
    let j = sample();
    assert_eq!(j.get("using"), Some(&Json::Str("css selector".to_string())));
    assert_eq!(j.get("missing"), None);
    assert_eq!(Json::Null.get("using"), None);
    assert_eq!(Json::Array(vec![]).get("0"), None);
}

#[test]
fn typed_reads_give_nothing_for_another_type() {
    let j = sample();
    assert_eq!(j.str_at("using"), Some("css selector"));
    assert_eq!(j.str_at("index"), None);
    assert_eq!(j.u64_at("index"), Some(3));
    assert_eq!(j.u64_at("neg"), None);
    assert_eq!(j.u64_at("real"), None);
    assert_eq!(j.u64_at("using"), None);
    assert_eq!(j.get("flag").and_then(|f| f.as_bool()), Some(true));
    assert_eq!(j.get("using").and_then(|f| f.as_bool()), None);
    assert!(j.get("none").map(|n| n.is_null()).unwrap_or(false));
    assert!(!j.is_null());
    assert_eq!(j.array_at("list").map(|l| l.len()), Some(2));
    assert!(j.array_at("using").is_none());
    assert!(j.as_object().is_some());
    assert!(Json::Null.as_object().is_none());
}

#[test]
fn defaults_stand_in_for_what_is_missing() {
    let j = sample();
    assert_eq!(j.str_or("using", "css"), "css selector");
    assert_eq!(j.str_or("index", "css"), "css");
    assert_eq!(j.u64_or("index", 0), 3);
    assert_eq!(j.u64_or("missing", 7), 7);
    assert_eq!(j.field_or("flag", Json::Null), Json::Bool(true));
    assert_eq!(j.field_or("missing", Json::text("d")), Json::Str("d".to_string()));
}

#[test]
fn copy_is_equal_to_its_original() {
    let j = sample();
    assert_eq!(j.copy(), j);
    assert_eq!(Json::Null.copy(), Json::Null);
}

#[test]
fn builders_make_the_documents_they_name() {
    assert_eq!(Json::text("a"), Json::Str("a".to_string()));
    assert_eq!(Json::unsigned(5), Json::Number(Number::Unsigned(5)));
    assert_eq!(Json::empty_object(), Json::Object(vec![]));
    let mut entries = no_entries();
    put(&mut entries, "a", Json::Null);
    put(&mut entries, "b", Json::Bool(true));
    assert_eq!(
        Json::object(entries),
        Json::Object(vec![("a".to_string(), Json::Null), ("b".to_string(), Json::Bool(true))])
    );
    assert_eq!(Json::array(vec![Json::Null]), Json::Array(vec![Json::Null]));
}
