//! Files for a file input: the paths that a text names, and for each file its name,
//! its MIME type and its content as text.

use vstd::prelude::*;
use crate::json::{entries_view, no_entries, put, Json, JsonValue};
use crate::outside::{base64_encode, base64_text, file_name_of, path_file_name};
use crate::text::{
    chars_of, eq_ignore_ascii_case, lemma_line_end_joined, lemma_line_end_none, lines, lower,
    nonempty_lines, nonempty_lines_of, views, without_carriage_return,
};

verus! {

/// Where the last full stop of `name` stands.
pub open spec fn last_dot(name: Seq<char>) -> Option<int>
    decreases name.len(),
{
    if name.len() == 0 {
        None
    } else if name.last() == '.' {
        Some(name.len() - 1)
    } else {
        last_dot(name.drop_last())
    }
}

/// The extension of the file name `name`: what follows its last full stop. A name
/// without a full stop has none, nor has one whose only full stop begins it.
pub open spec fn extension_of(name: Seq<char>) -> Option<Seq<char>> {
    match last_dot(name) {
        Some(at) => if at == 0 {
            None
        } else {
            Some(name.skip(at + 1))
        },
        None => None,
    }
}

/// Whether `a` and `b` are equal but for the case of their ASCII letters.
pub open spec fn same_ignoring_case(a: Seq<char>, b: Seq<char>) -> bool {
    lower(a) == lower(b)
}

/// The MIME type that goes with the extension `ext`, whatever the case of its
/// letters; that of arbitrary bytes for an extension that is not listed.
pub open spec fn mime_of(ext: Seq<char>) -> Seq<char> {
    if same_ignoring_case(ext, "txt"@) {
        "text/plain"@
    } else if same_ignoring_case(ext, "html"@) || same_ignoring_case(ext, "htm"@) {
        "text/html"@
    } else if same_ignoring_case(ext, "css"@) {
        "text/css"@
    } else if same_ignoring_case(ext, "js"@) {
        "application/javascript"@
    } else if same_ignoring_case(ext, "json"@) {
        "application/json"@
    } else if same_ignoring_case(ext, "xml"@) {
        "application/xml"@
    } else if same_ignoring_case(ext, "pdf"@) {
        "application/pdf"@
    } else if same_ignoring_case(ext, "zip"@) {
        "application/zip"@
    } else if same_ignoring_case(ext, "png"@) {
        "image/png"@
    } else if same_ignoring_case(ext, "jpg"@) || same_ignoring_case(ext, "jpeg"@) {
        "image/jpeg"@
    } else if same_ignoring_case(ext, "gif"@) {
        "image/gif"@
    } else if same_ignoring_case(ext, "svg"@) {
        "image/svg+xml"@
    } else if same_ignoring_case(ext, "webp"@) {
        "image/webp"@
    } else if same_ignoring_case(ext, "mp4"@) {
        "video/mp4"@
    } else if same_ignoring_case(ext, "mp3"@) {
        "audio/mpeg"@
    } else {
        "application/octet-stream"@
    }
}

/// The MIME type of a file called `name`, where `name` may be missing.
pub open spec fn mime_of_name(name: Option<Seq<char>>) -> Seq<char> {
    match name {
        Some(name) => match extension_of(name) {
            Some(ext) => mime_of(ext),
            None => mime_of(Seq::empty()),
        },
        None => mime_of(Seq::empty()),
    }
}

/// The name under which the file at `path` is uploaded: the last component of the
/// path, or `file` where the path has none.
pub open spec fn upload_name_spec(path: Seq<char>) -> Seq<char> {
    match file_name_of(path) {
        Some(name) => name,
        None => "file"@,
    }
}

/// The document that describes the file at `path` with the content `data`.
pub open spec fn file_document(path: Seq<char>, data: Seq<u8>) -> JsonValue {
    JsonValue::Object(
        seq![
            ("name"@, JsonValue::Str(upload_name_spec(path))),
            ("data"@, JsonValue::Str(base64_text(data))),
            ("mime"@, JsonValue::Str(mime_of_name(file_name_of(path)))),
        ],
    )
}

proof fn lemma_last_dot(name: Seq<char>)
    ensures
        match last_dot(name) {
            Some(at) => 0 <= at < name.len() && name[at] == '.' && forall|i: int|
                at < i < name.len() ==> name[i] != '.',
            None => forall|i: int| 0 <= i < name.len() ==> name[i] != '.',
        },
    decreases name.len(),
{
    if name.len() > 0 && name.last() != '.' {
        let rest = name.drop_last();
        lemma_last_dot(rest);
        match last_dot(rest) {
            Some(at) => {
                assert(name[at] == rest[at]);
                assert forall|i: int| at < i < name.len() implies name[i] != '.' by {
                    if i < rest.len() {
                        assert(name[i] == rest[i]);
                    }
                }
            },
            None => {
                assert forall|i: int| 0 <= i < name.len() implies name[i] != '.' by {
                    if i < rest.len() {
                        assert(name[i] == rest[i]);
                    }
                }
            },
        }
    }
}

proof fn lemma_last_dot_is(name: Seq<char>, at: int)
    requires
        0 <= at < name.len(),
        name[at] == '.',
        forall|i: int| at < i < name.len() ==> name[i] != '.',
    ensures
        last_dot(name) == Some(at),
{
    lemma_last_dot(name);
}

proof fn lemma_no_dot(name: Seq<char>)
    requires
        forall|i: int| 0 <= i < name.len() ==> name[i] != '.',
    ensures
        last_dot(name) is None,
{
    lemma_last_dot(name);
}

/// The MIME type that goes with the extension `ext`.
pub fn mime_for_extension(ext: &str) -> (mime: String)
    ensures
        mime@ == mime_of(ext@),
{
    let mime = if eq_ignore_ascii_case(ext, "txt") {
        "text/plain"
    } else if eq_ignore_ascii_case(ext, "html") || eq_ignore_ascii_case(ext, "htm") {
        "text/html"
    } else if eq_ignore_ascii_case(ext, "css") {
        "text/css"
    } else if eq_ignore_ascii_case(ext, "js") {
        "application/javascript"
    } else if eq_ignore_ascii_case(ext, "json") {
        "application/json"
    } else if eq_ignore_ascii_case(ext, "xml") {
        "application/xml"
    } else if eq_ignore_ascii_case(ext, "pdf") {
        "application/pdf"
    } else if eq_ignore_ascii_case(ext, "zip") {
        "application/zip"
    } else if eq_ignore_ascii_case(ext, "png") {
        "image/png"
    } else if eq_ignore_ascii_case(ext, "jpg") || eq_ignore_ascii_case(ext, "jpeg") {
        "image/jpeg"
    } else if eq_ignore_ascii_case(ext, "gif") {
        "image/gif"
    } else if eq_ignore_ascii_case(ext, "svg") {
        "image/svg+xml"
    } else if eq_ignore_ascii_case(ext, "webp") {
        "image/webp"
    } else if eq_ignore_ascii_case(ext, "mp4") {
        "video/mp4"
    } else if eq_ignore_ascii_case(ext, "mp3") {
        "audio/mpeg"
    } else {
        "application/octet-stream"
    };
    String::from_str(mime)
}

/// The MIME type of a file called `name`.
pub fn mime_for_name(name: &str) -> (mime: String)
    ensures
        mime@ == mime_of_name(Some(name@)),
{
    let chars = chars_of(name);
    let mut at: usize = chars.len();
    while at > 0 && chars[at - 1] != '.'
        invariant
            at <= chars.len(),
            chars@ == name@,
            forall|i: int| at <= i < chars.len() ==> chars@[i] != '.',
        decreases at,
    {
        at -= 1;
    }
    if at <= 1 {
        proof {
            if at == 0 {
                lemma_no_dot(name@);
            } else {
                lemma_last_dot_is(name@, 0);
            }
            reveal_strlit("");
            assert(""@ =~= Seq::<char>::empty());
        }
        mime_for_extension("")
    } else {
        proof {
            lemma_last_dot_is(name@, at - 1);
            assert(name@.subrange(at as int, chars.len() as int) =~= name@.skip(at as int));
        }
        mime_for_extension(name.substring_char(at, chars.len()))
    }
}

/// The MIME type of the file at `path`, by the extension of its name.
pub fn mime_from_extension(path: &str) -> (mime: String)
    ensures
        mime@ == mime_of_name(file_name_of(path@)),
{
    match path_file_name(path) {
        Some(name) => mime_for_name(name.as_str()),
        None => {
            proof {
                reveal_strlit("");
                assert(""@ =~= Seq::<char>::empty());
            }
            mime_for_extension("")
        },
    }
}

/// The name under which the file at `path` is uploaded.
pub fn upload_name(path: &str) -> (name: String)
    ensures
        name@ == upload_name_spec(path@),
{
    match path_file_name(path) {
        Some(name) => name,
        None => String::from_str("file"),
    }
}

/// The paths that the text sent to a file input names: its lines, but for the empty
/// ones, in their order.
pub fn upload_paths(text: &str) -> (paths: Vec<String>)
    ensures
        views(paths@) == nonempty_lines(text@),
{
    nonempty_lines_of(text)
}

/// Describes the file at `path` with the content `data` for the embedded server.
pub fn file_entry(path: &str, data: &[u8]) -> (entry: Json)
    requires
        data@.len() / 3 * 4 + 4 <= usize::MAX,
    ensures
        entry@ == file_document(path@, data@),
{
    let mut entries = no_entries();
    put(&mut entries, "name", Json::Str(upload_name(path)));
    put(&mut entries, "data", Json::Str(base64_encode(data)));
    put(&mut entries, "mime", Json::Str(mime_from_extension(path)));
    assert(entries_view(entries@) =~= file_document(path@, data@)->Object_0);
    Json::object(entries)
}

/// Whether the content of a file of `len` bytes can be written as text on this
/// machine.
pub fn fits(len: usize) -> (ok: bool)
    ensures
        ok == (len / 3 * 4 + 4 <= usize::MAX),
{
    len / 3 <= (usize::MAX - 4) / 4
}

/// A text of two paths with a line feed between them names exactly these two, in
/// this order. The paths hold at least one character and no line feed, and the first
/// does not end in a carriage return, which would belong to the line ending.
pub proof fn law_two_paths(a: Seq<char>, b: Seq<char>)
    requires
        a.len() > 0,
        b.len() > 0,
        forall|i: int| 0 <= i < a.len() ==> a[i] != '\n',
        forall|i: int| 0 <= i < b.len() ==> b[i] != '\n',
        a.last() != '\r',
    ensures
        nonempty_lines(a + seq!['\n'] + b) == seq![a, b],
{
    let text = a + seq!['\n'] + b;
    lemma_line_end_joined(a, b);
    lemma_line_end_none(b);
    assert(text.take(a.len() as int) =~= a);
    assert(text.skip(a.len() as int + 1) =~= b);
    assert(without_carriage_return(a) == a);
    assert(lines(b) == seq![b]);
    assert(lines(text) == seq![a] + seq![b]);
    assert(seq![a] + seq![b] =~= seq![a, b]);
    let keep = |l: Seq<char>| l.len() > 0;
    reveal_with_fuel(Seq::filter, 3);
    let both = seq![a, b];
    assert(both.drop_last() =~= seq![a]);
    assert(seq![a].drop_last() =~= Seq::<Seq<char>>::empty());
    assert(both.filter(keep) =~= both);
}

} // verus!
