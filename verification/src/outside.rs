//! The calls this library makes into other crates and into parts of the standard
//! library that carry no specification. The contract of each call is taken on
//! trust; what is marked a law is proved.

use vstd::prelude::*;

verus! {

/// The lower-case hexadecimal digit of `d`, for `0 <= d < 16`.
pub open spec fn hex_digit(d: int) -> char {
    if d < 10 {
        (d + 48) as char
    } else {
        (d + 87) as char
    }
}

/// How a JSON string literal writes one character: a quotation mark and a reverse
/// solidus behind a reverse solidus; backspace, tab, line feed, form feed and carriage
/// return by their letter; every other character below U+0020 as `\u00` and two
/// hexadecimal digits; all others as they are.
pub open spec fn escaped_char(c: char) -> Seq<char> {
    if c == '"' {
        seq!['\\', '"']
    } else if c == '\\' {
        seq!['\\', '\\']
    } else if c == '\u{08}' {
        seq!['\\', 'b']
    } else if c == '\t' {
        seq!['\\', 't']
    } else if c == '\n' {
        seq!['\\', 'n']
    } else if c == '\u{0c}' {
        seq!['\\', 'f']
    } else if c == '\r' {
        seq!['\\', 'r']
    } else if (c as int) < 0x20 {
        seq!['\\', 'u', '0', '0', hex_digit((c as int) / 16), hex_digit((c as int) % 16)]
    } else {
        seq![c]
    }
}

/// The characters of `s`, each as a JSON string literal writes it.
pub open spec fn escaped(s: Seq<char>) -> Seq<char>
    decreases s.len(),
{
    if s.len() == 0 {
        Seq::empty()
    } else {
        escaped(s.drop_last()) + escaped_char(s.last())
    }
}

/// The JSON string literal of `s`: its escaped characters between two quotation marks.
pub open spec fn quoted(s: Seq<char>) -> Seq<char> {
    seq!['"'] + escaped(s) + seq!['"']
}

/// Where a script ends the string literal that it reads in `text` from position
/// `at` on, the place after the opening quotation mark: at the first quotation mark
/// that no reverse solidus stands before, each reverse solidus taking the character
/// after it with it. A literal that is not closed ends nowhere.
pub open spec fn literal_end(text: Seq<char>, at: int) -> Option<int>
    decreases text.len() - at,
{
    if at < 0 || at >= text.len() {
        None
    } else if text[at] == '"' {
        Some(at)
    } else if text[at] == '\\' {
        if at + 1 < text.len() {
            literal_end(text, at + 2)
        } else {
            None
        }
    } else {
        literal_end(text, at + 1)
    }
}

proof fn lemma_escaped_char_is_passed(before: Seq<char>, c: char, after: Seq<char>)
    ensures
        literal_end(before + escaped_char(c) + after, before.len() as int) == literal_end(
            before + escaped_char(c) + after,
            (before.len() + escaped_char(c).len()) as int,
        ),
{
    let text = before + escaped_char(c) + after;
    let at = before.len() as int;
    let e = escaped_char(c);
    assert forall|k: int| 0 <= k < e.len() implies text[at + k] == e[k] by {}
    if c == '"' || c == '\\' || c == '\u{08}' || c == '\t' || c == '\n' || c == '\u{0c}' || c == '\r' {
        assert(text[at] == e[0]);
    } else if (c as int) < 0x20 {
        assert(text[at] == e[0]);
        assert(text[at + 2] == e[2]);
        assert(text[at + 3] == e[3]);
        assert(text[at + 4] == e[4]);
        assert(text[at + 5] == e[5]);
        assert(literal_end(text, at) == literal_end(text, at + 2));
        assert(literal_end(text, at + 2) == literal_end(text, at + 3));
        assert(literal_end(text, at + 3) == literal_end(text, at + 4));
        assert(literal_end(text, at + 4) == literal_end(text, at + 5));
        assert(literal_end(text, at + 5) == literal_end(text, at + 6));
    } else {
        assert(text[at] == e[0]);
    }
}

proof fn lemma_escaped_is_passed(before: Seq<char>, s: Seq<char>, after: Seq<char>)
    ensures
        literal_end(before + escaped(s) + after, before.len() as int) == literal_end(
            before + escaped(s) + after,
            (before.len() + escaped(s).len()) as int,
        ),
    decreases s.len(),
{
    if s.len() > 0 {
        let head = escaped(s.drop_last());
        let last = escaped_char(s.last());
        let text = before + escaped(s) + after;
        assert(text =~= before + head + (last + after));
        lemma_escaped_is_passed(before, s.drop_last(), last + after);
        assert(text =~= (before + head) + last + after);
        lemma_escaped_char_is_passed(before + head, s.last(), after);
    } else {
        assert(escaped(s).len() == 0);
    }
}

/// A quoted text is one string literal, whatever the text and whatever follows it: a
/// script that reads it from its opening quotation mark ends the literal at the
/// closing one. No text can end its literal early and be read as code.
pub proof fn law_quoted_is_one_literal(s: Seq<char>, after: Seq<char>)
    ensures
        quoted(s)[0] == '"',
        literal_end(quoted(s) + after, 1) == Some(quoted(s).len() - 1),
{
    let text = quoted(s) + after;
    lemma_escaped_is_passed(seq!['"'], s, seq!['"'] + after);
    assert(text =~= seq!['"'] + escaped(s) + (seq!['"'] + after));
    assert(text[1 + escaped(s).len() as int] == '"');
}

/// The base64 text of `data` in the standard alphabet, with padding.
pub uninterp spec fn base64_text(data: Seq<u8>) -> Seq<char>;

/// The last component of `path`, as the path rules of the platform give it; none for
/// a path that ends in the root or in `..`.
pub uninterp spec fn file_name_of(path: Seq<char>) -> Option<Seq<char>>;

/// Calls `serde_json::to_string` on a string slice. Trusted: the result is the JSON
/// string literal of `s` as `quoted` writes it, which is what the serializer's escape
/// table and its six-character form for control characters produce.
#[verifier::external_body]
pub(crate) fn json_quote(s: &str) -> (literal: String)
    ensures
        literal@ == quoted(s@),
{
    serde_json::to_string(s).unwrap_or_default()
}

/// Calls `uuid::Uuid::new_v4` and writes the identifier out in its hyphenated form.
/// The identifier is random, so nothing is stated of the text. The call fails only
/// where the operating system gives no random bytes.
#[verifier::external_body]
pub(crate) fn fresh_id() -> (id: String) {
    uuid::Uuid::new_v4().to_string()
}

/// Calls `base64::Engine::encode` of the engine `general_purpose::STANDARD`. Trusted:
/// the result is a function of the bytes alone. The engine panics where the length of
/// the text does not fit in `usize`; the `requires` keeps such data away.
#[verifier::external_body]
pub(crate) fn base64_encode(data: &[u8]) -> (text: String)
    requires
        data@.len() / 3 * 4 + 4 <= usize::MAX,
    ensures
        text@ == base64_text(data@),
{
    base64::Engine::encode(&base64::engine::general_purpose::STANDARD, data)
}

/// Calls `std::path::Path::file_name`. Trusted: the result depends on the path alone.
/// The rules that split a path into its components are those of the platform that
/// the library is built for.
#[verifier::external_body]
pub(crate) fn path_file_name(path: &str) -> (name: Option<String>)
    ensures
        name matches Some(n) ==> file_name_of(path@) == Some(n@),
        name is None ==> file_name_of(path@) is None,
{
    std::path::Path::new(path).file_name().and_then(|n| n.to_str()).map(|n| n.to_string())
}

} // verus!
