//! Sending keys to an element. On a file input the text names files to upload, one
//! path a line; on any other element it is typed.

use vstd::prelude::*;
use crate::error::{failure, no_element_message, ErrorKind, Failure, W3cError};
use crate::json::{items_view, Json, JsonValue};
use crate::plan::{
    element_body, element_body_with, element_document, element_document_with, one, post, request,
    single, AgentRequest, AgentRequestView, Answer, AnswerView, Plan, PlanView, Recovery,
    RecoveryView,
};
use crate::registry::find;
use crate::session::{resolve_element, ElementRefView, ElementTable, Session};
use crate::text::{eq_ignore_ascii_case, nonempty_lines, views};
use crate::upload::{file_document, file_entry, same_ignoring_case, upload_paths};

verus! {

/// What the public server asks of the embedded server about the element that keys
/// are sent to.
#[derive(Clone, Copy, Debug, PartialEq, Eq, Structural)]
pub enum Question {
    /// What the tag of the element is.
    Tag,
    /// What the type of the input is.
    Type,
}

/// What the public server does next while it serves a command that sends keys.
#[derive(Debug)]
pub enum KeysStep {
    /// Ask the embedded server this question, and come back with the reply.
    Ask(Question, AgentRequest),
    /// Type the text: this plan ends the command.
    Type(Plan),
    /// Read the files at these paths, and hand them on as the files of the input.
    Upload(Vec<String>),
}

/// What a `KeysStep` stands for.
pub ghost enum KeysStepView {
    Ask(Question, AgentRequestView),
    Type(PlanView),
    Upload(Seq<Seq<char>>),
}

impl View for KeysStep {
    type V = KeysStepView;

    open spec fn view(&self) -> KeysStepView {
        match self {
            KeysStep::Ask(q, r) => KeysStepView::Ask(*q, r@),
            KeysStep::Type(p) => KeysStepView::Type(p@),
            KeysStep::Upload(paths) => KeysStepView::Upload(views(paths@)),
        }
    }
}

/// The view of a result.
pub open spec fn step_result(r: Result<KeysStep, W3cError>) -> Result<KeysStepView, Failure> {
    match r {
        Ok(s) => Ok(s@),
        Err(e) => Err(e@),
    }
}

/// The text that the request `body` sends: its member `text`, the empty text where
/// that is no string.
pub open spec fn sent_text(body: JsonValue) -> Seq<char> {
    body.str_or("text"@, ""@)
}

/// The plan that types the text of `body` into the element `r`.
pub open spec fn typing(r: ElementRefView, body: JsonValue) -> PlanView {
    one(
        "/element/send-keys"@,
        element_document_with(r, "text"@, JsonValue::Str(sent_text(body))),
        AnswerView::Null,
        RecoveryView::Propagate,
    )
}

/// The first step: to ask for the tag of the element `eid`.
pub open spec fn keys_first(table: ElementTable, eid: Seq<char>) -> Result<KeysStepView, Failure> {
    match find(table, eid) {
        Some(r) => Ok(
            KeysStepView::Ask(Question::Tag, request("/element/tag"@, element_document(r))),
        ),
        None => Err(failure(ErrorKind::NoSuchElement, no_element_message(eid))),
    }
}

/// The step after the reply `reply` that tells the tag of the element: an `input`,
/// whatever the case of the letters, is asked for its type; into any other element
/// the text is typed.
pub open spec fn keys_after_tag(table: ElementTable, eid: Seq<char>, body: JsonValue, reply: JsonValue) -> Result<
    KeysStepView,
    Failure,
> {
    match find(table, eid) {
        Some(r) => if same_ignoring_case(reply.str_or("tag"@, ""@), "input"@) {
            Ok(
                KeysStepView::Ask(
                    Question::Type,
                    request(
                        "/element/attribute"@,
                        element_document_with(r, "name"@, JsonValue::Str("type"@)),
                    ),
                ),
            )
        } else {
            Ok(KeysStepView::Type(typing(r, body)))
        },
        None => Err(failure(ErrorKind::NoSuchElement, no_element_message(eid))),
    }
}

/// The step after the reply `reply` that tells the type of the input: for a `file`
/// input, whatever the case of the letters, the files to upload are the lines of the
/// text that are not empty, in their order; into any other input the text is typed.
pub open spec fn keys_after_type(table: ElementTable, eid: Seq<char>, body: JsonValue, reply: JsonValue) -> Result<
    KeysStepView,
    Failure,
> {
    match find(table, eid) {
        Some(r) => if same_ignoring_case(reply.str_or("value"@, ""@), "file"@) {
            Ok(KeysStepView::Upload(nonempty_lines(sent_text(body))))
        } else {
            Ok(KeysStepView::Type(typing(r, body)))
        },
        None => Err(failure(ErrorKind::NoSuchElement, no_element_message(eid))),
    }
}

/// The plan that makes `files` the files of the file input `eid`.
pub open spec fn uploading(table: ElementTable, eid: Seq<char>, files: Seq<JsonValue>) -> Result<
    PlanView,
    Failure,
> {
    match find(table, eid) {
        Some(r) => Ok(
            one(
                "/element/set-files"@,
                element_document_with(r, "files"@, JsonValue::Array(files)),
                AnswerView::Null,
                RecoveryView::Propagate,
            ),
        ),
        None => Err(failure(ErrorKind::NoSuchElement, no_element_message(eid))),
    }
}

fn type_plan(e: &crate::session::ElementRef, body: &Json) -> (plan: Plan)
    ensures
        plan@ == typing(e@, body@),
{
    single(
        "/element/send-keys",
        element_body_with(e, "text", Json::Str(body.str_or("text", ""))),
        Answer::Null,
        Recovery::Propagate,
    )
}

/// The first step of sending keys to the element `eid`.
pub fn send_keys(session: &Session, eid: &str) -> (step: Result<KeysStep, W3cError>)
    ensures
        step_result(step) == keys_first(session@.elements, eid@),
{
    match resolve_element(session, eid) {
        Ok(e) => Ok(KeysStep::Ask(Question::Tag, post("/element/tag", element_body(e)))),
        Err(e) => Err(e),
    }
}

/// The step of sending keys that follows the reply with the element's tag.
pub fn send_keys_after_tag(session: &Session, eid: &str, body: &Json, reply: &Json) -> (step: Result<
    KeysStep,
    W3cError,
>)
    ensures
        step_result(step) == keys_after_tag(session@.elements, eid@, body@, reply@),
{
    match resolve_element(session, eid) {
        Ok(e) => {
            let tag = reply.str_or("tag", "");
            if eq_ignore_ascii_case(tag.as_str(), "input") {
                Ok(
                    KeysStep::Ask(
                        Question::Type,
                        post("/element/attribute", element_body_with(e, "name", Json::text("type"))),
                    ),
                )
            } else {
                Ok(KeysStep::Type(type_plan(e, body)))
            }
        },
        Err(e) => Err(e),
    }
}

/// The step of sending keys that follows the reply with the input's type.
pub fn send_keys_after_type(session: &Session, eid: &str, body: &Json, reply: &Json) -> (step: Result<
    KeysStep,
    W3cError,
>)
    ensures
        step_result(step) == keys_after_type(session@.elements, eid@, body@, reply@),
{
    match resolve_element(session, eid) {
        Ok(e) => {
            let kind = reply.str_or("value", "");
            if eq_ignore_ascii_case(kind.as_str(), "file") {
                let text = body.str_or("text", "");
                Ok(KeysStep::Upload(upload_paths(text.as_str())))
            } else {
                Ok(KeysStep::Type(type_plan(e, body)))
            }
        },
        Err(e) => Err(e),
    }
}

/// The last step of an upload: hands `files`, one document a file, to the file
/// input `eid`.
pub fn send_files(session: &Session, eid: &str, files: Vec<Json>) -> (plan: Result<Plan, W3cError>)
    ensures
        crate::plan::plan_result(plan) == uploading(session@.elements, eid@, items_view(files@)),
{
    match resolve_element(session, eid) {
        Ok(e) => Ok(
            single(
                "/element/set-files",
                element_body_with(e, "files", Json::array(files)),
                Answer::Null,
                Recovery::Propagate,
            ),
        ),
        Err(e) => Err(e),
    }
}

/// The failure of a file that could not be read.
pub fn cannot_read(path: &str, reason: &str) -> (e: W3cError)
    ensures
        e@ == failure(
            ErrorKind::InvalidArgument,
            "Cannot read file "@ + path@ + ": "@ + reason@,
        ),
{
    let mut message = String::from_str("Cannot read file ");
    message.append(path);
    message.append(": ");
    message.append(reason);
    W3cError { kind: ErrorKind::InvalidArgument, message }
}

/// The step after the reply `reply` to the question `question`.
pub open spec fn keys_after(
    table: ElementTable,
    eid: Seq<char>,
    body: JsonValue,
    question: Question,
    reply: JsonValue,
) -> Result<KeysStepView, Failure> {
    match question {
        Question::Tag => keys_after_tag(table, eid, body, reply),
        Question::Type => keys_after_type(table, eid, body, reply),
    }
}

/// The step of sending keys that follows the reply to the question that was asked.
pub fn send_keys_after(session: &Session, eid: &str, body: &Json, question: Question, reply: &Json) -> (step:
    Result<KeysStep, W3cError>)
    ensures
        step_result(step) == keys_after(session@.elements, eid@, body@, question, reply@),
{
    match question {
        Question::Tag => send_keys_after_tag(session, eid, body, reply),
        Question::Type => send_keys_after_type(session, eid, body, reply),
    }
}

/// How the reading of a file ended: with its content, or with the reason why there
/// is none.
pub open spec fn read_view(read: Result<Vec<u8>, String>) -> Result<Seq<u8>, Seq<char>> {
    match read {
        Ok(data) => Ok(data@),
        Err(reason) => Err(reason@),
    }
}

/// The views of `reads`, in their order.
pub open spec fn reads_view(reads: Seq<Result<Vec<u8>, String>>) -> Seq<
    Result<Seq<u8>, Seq<char>>,
> {
    Seq::new(reads.len(), |i: int| read_view(reads[i]))
}

/// The first of the first `n` readings that failed.
pub open spec fn first_unread(reads: Seq<Result<Seq<u8>, Seq<char>>>, n: nat) -> Option<int>
    decreases n,
{
    if n == 0 {
        None
    } else {
        match first_unread(reads, (n - 1) as nat) {
            Some(i) => Some(i),
            None => if reads[n - 1] is Err {
                Some(n - 1)
            } else {
                None
            },
        }
    }
}

/// The message that tells of a file that could not be read.
pub open spec fn cannot_read_message(path: Seq<char>, reason: Seq<char>) -> Seq<char> {
    "Cannot read file "@ + path + ": "@ + reason
}

/// The number of paths that have a reading.
pub open spec fn read_count(paths: Seq<Seq<char>>, reads: Seq<Result<Seq<u8>, Seq<char>>>) -> nat {
    if paths.len() <= reads.len() {
        paths.len()
    } else {
        reads.len()
    }
}

/// What becomes of an upload of the files at `paths` to the file input `eid`, where
/// `reads` tells for each path in its order how its reading ended. An element that
/// the session does not know is refused. The first file that could not be read ends
/// the upload with its failure, and nothing is sent. Else the files go to the input
/// in the order of their paths.
pub open spec fn uploaded(
    table: ElementTable,
    eid: Seq<char>,
    paths: Seq<Seq<char>>,
    reads: Seq<Result<Seq<u8>, Seq<char>>>,
) -> Result<PlanView, Failure> {
    let n = read_count(paths, reads);
    match find(table, eid) {
        None => Err(failure(ErrorKind::NoSuchElement, no_element_message(eid))),
        Some(_) => match first_unread(reads, n) {
            Some(i) => Err(
                failure(
                    ErrorKind::InvalidArgument,
                    cannot_read_message(paths[i], reads[i]->Err_0),
                ),
            ),
            None => uploading(
                table,
                eid,
                Seq::new(n, |i: int| file_document(paths[i], reads[i]->Ok_0)),
            ),
        },
    }
}

/// Ends an upload: `reads` tells for each of `paths` in its order how the reading of
/// the file ended. Answers with the plan that hands the files to the file input
/// `eid`, or with the failure of the first file that could not be read.
pub fn upload_files(
    session: &Session,
    eid: &str,
    paths: &Vec<String>,
    reads: &Vec<Result<Vec<u8>, String>>,
) -> (plan: Result<Plan, W3cError>)
    requires
        forall|i: int|
            0 <= i < reads@.len() ==> ((#[trigger] reads@[i]) matches Ok(data) ==> data@.len() / 3
                * 4 + 4 <= usize::MAX),
    ensures
        crate::plan::plan_result(plan) == uploaded(
            session@.elements,
            eid@,
            views(paths@),
            reads_view(reads@),
        ),
{
    if let Err(e) = resolve_element(session, eid) {
        return Err(e);
    }
    let n = if paths.len() <= reads.len() {
        paths.len()
    } else {
        reads.len()
    };
    let ghost p = views(paths@);
    let ghost r = reads_view(reads@);
    let mut files: Vec<Json> = Vec::new();
    let mut i: usize = 0;
    while i < n
        invariant
            i <= n,
            n == read_count(p, r),
            find(session@.elements, eid@) is Some,
            p == views(paths@),
            r == reads_view(reads@),
            first_unread(r, i as nat) is None,
            files@.len() == i,
            forall|k: int| 0 <= k < i ==> (#[trigger] files@[k])@ == file_document(p[k], r[k]->Ok_0),
            forall|k: int|
                0 <= k < reads@.len() ==> ((#[trigger] reads@[k]) matches Ok(data) ==> data@.len()
                    / 3 * 4 + 4 <= usize::MAX),
        decreases n - i,
    {
        assert(r[i as int] == read_view(reads@[i as int]));
        match &reads[i] {
            Ok(data) => {
                files.push(file_entry(paths[i].as_str(), data.as_slice()));
            },
            Err(reason) => {
                proof {
                    assert(first_unread(r, (i + 1) as nat) == Some(i as int));
                    lemma_first_unread_stays(r, (i + 1) as nat, n as nat);
                    assert(p[i as int] == paths@[i as int]@);
                }
                return Err(cannot_read(paths[i].as_str(), reason.as_str()));
            },
        }
        i += 1;
    }
    assert(items_view(files@) =~= Seq::new(n as nat, |i: int| file_document(p[i], r[i]->Ok_0)));
    send_files(session, eid, files)
}

proof fn lemma_first_unread_stays(reads: Seq<Result<Seq<u8>, Seq<char>>>, m: nat, n: nat)
    requires
        m <= n,
        first_unread(reads, m) is Some,
    ensures
        first_unread(reads, n) == first_unread(reads, m),
    decreases n - m,
{
    if m < n {
        lemma_first_unread_stays(reads, m, (n - 1) as nat);
    }
}

} // verus!
