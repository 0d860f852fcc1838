use tauri_webdriver::text::{
    chars_of, contains, decimal, eq_ignore_ascii_case, nonempty_lines_of, parse_u16, same_text,
    to_ascii_lower, trim_range, whitespace,
};

fn parse(s: &str) -> Option<u16> {
    let chars = chars_of(s);
    parse_u16(&chars, 0, chars.len())
}

#[test]
fn decimal_writes_numbers_without_leading_zeros() {
    assert_eq!(decimal(0), "0");
    assert_eq!(decimal(7), "7");
    assert_eq!(decimal(10), "10");
    assert_eq!(decimal(4444), "4444");
    assert_eq!(decimal(65535), "65535");
    assert_eq!(decimal(u64::MAX), "18446744073709551615");
}

#[test]
fn chars_of_keeps_every_character() {
    assert_eq!(chars_of("a\u{e9}\u{4e2d}"), vec!['a', '\u{e9}', '\u{4e2d}']);
    assert_eq!(chars_of(""), Vec::<char>::new());
}

#[test]
fn parse_u16_reads_ports() {
    assert_eq!(parse("0"), Some(0));
    assert_eq!(parse("8080"), Some(8080));
    assert_eq!(parse("+8080"), Some(8080));
    assert_eq!(parse("0080"), Some(80));
    assert_eq!(parse("65535"), Some(65535));
}

#[test]
fn parse_u16_refuses_what_is_no_port() {
    assert_eq!(parse(""), None);
    assert_eq!(parse("+"), None);
    assert_eq!(parse("-1"), None);
    assert_eq!(parse("65536"), None);
    assert_eq!(parse("99999999999999999999"), None);
    assert_eq!(parse("80a"), None);
    assert_eq!(parse("8 0"), None);
    assert_eq!(parse("++1"), None);
}

#[test]
fn parse_u16_agrees_with_std_on_samples() {
    for s in ["1", "+1", "", "65535", "65536", "007", "1_0", " 1", "1 ", "12345", "-0", "+0"] {
        assert_eq!(parse(s), s.parse::<u16>().ok(), "on {:?}", s);
    }
}

#[test]
fn trim_range_cuts_white_space_at_both_ends() {
    let chars = chars_of("  \t 4444 \r\n");
    assert_eq!(trim_range(&chars), (4, 8));
    let chars = chars_of("   ");
    let (a, b) = trim_range(&chars);
    assert_eq!(a, b);
    let chars = chars_of("x");
    assert_eq!(trim_range(&chars), (0, 1));
    let chars = chars_of("\u{a0}x\u{3000}");
    assert_eq!(trim_range(&chars), (1, 2));
}

#[test]
fn whitespace_agrees_with_std_on_every_character() {
    let mut c = 0u32;
    while c <= 0x10ffff {
        if let Some(ch) = char::from_u32(c) {
            assert_eq!(whitespace(ch), ch.is_whitespace(), "on U+{:04X}", c);
        }
        c += 1;
    }
}

#[test]
fn ascii_lower_agrees_with_std_on_every_character() {
    let mut c = 0u32;
    while c <= 0x10ffff {
        if let Some(ch) = char::from_u32(c) {
            assert_eq!(to_ascii_lower(ch), ch.to_ascii_lowercase());
        }
        c += 1;
    }
}

#[test]
fn case_is_ignored_for_ascii_letters_only() {
    assert!(eq_ignore_ascii_case("INPUT", "input"));
    assert!(eq_ignore_ascii_case("InPuT", "iNpUt"));
    assert!(!eq_ignore_ascii_case("input", "inputs"));
    assert!(!eq_ignore_ascii_case("\u{c9}", "\u{e9}"));
    assert!(eq_ignore_ascii_case("", ""));
}

#[test]
fn same_text_compares_characters() {
    assert!(same_text("css", "css"));
    assert!(!same_text("css", "CSS"));
    assert!(!same_text("css", "cs"));
}

#[test]
fn contains_finds_a_text_anywhere() {
    assert!(contains("Error: no such alert", "no such alert"));
    assert!(contains("no such alert", "no such alert"));
    assert!(contains("abc", ""));
    assert!(contains("", ""));
    assert!(!contains("no such aler", "no such alert"));
    assert!(!contains("", "a"));
    assert!(contains("aab", "ab"));
}

#[test]
fn lines_that_are_empty_are_left_out() {
    assert_eq!(nonempty_lines_of("/tmp/a.txt\n/tmp/b.png"), vec!["/tmp/a.txt", "/tmp/b.png"]);
    assert_eq!(nonempty_lines_of("/tmp/a.txt\r\n\r\n/tmp/b.png\n"), vec!["/tmp/a.txt", "/tmp/b.png"]);
    assert_eq!(nonempty_lines_of(""), Vec::<String>::new());
    assert_eq!(nonempty_lines_of("\n\n"), Vec::<String>::new());
    assert_eq!(nonempty_lines_of("a\r"), vec!["a\r"]);
    assert_eq!(nonempty_lines_of("\r\nb"), vec!["b"]);
}

#[test]
fn lines_agree_with_std_on_samples() {
    for s in ["a\nb", "a\r\nb\r\n", "a\rb", "\n", "a\n\nb", "x", "a\r", "\r", "\r\n\r", "a\n\r"] {
        let expected: Vec<String> =
            s.lines().filter(|l| !l.is_empty()).map(|l| l.to_string()).collect();
        assert_eq!(nonempty_lines_of(s), expected, "on {:?}", s);
    }
}
