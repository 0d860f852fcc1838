//! The scripts that the embedded server hands to the web view, and what it makes of
//! their results. A script reports its result by a call of the bridge's `resolve`
//! with the id under which the server waits for it.

use vstd::prelude::*;
use crate::error::{ApiError, ApiFailure};
use crate::frames::{AgentState, FrameRef, FrameRefView};
use crate::json::{entries_view, no_entries, put, Json, JsonValue};
use crate::outside::{fresh_id, json_quote, quoted};
use crate::registry::{find, has_key, Registry};
use crate::text::{decimal, decimal_digits, views};

verus! {

/// The statements that step from the document in `__doc` into the frame `f`.
pub open spec fn frame_step(f: FrameRefView) -> Seq<char> {
    "var __f=__doc.querySelectorAll("@ + quoted(f.selector) + ")["@ + decimal_digits(
        f.index as nat,
    )
        + "];if(!__f)throw new Error('frame not found');__doc=__f.contentDocument;if(!__doc)throw new Error('cannot access frame document');"@
}

/// The statements that step through `frames`, outermost first.
pub open spec fn frame_steps(frames: Seq<FrameRefView>) -> Seq<char>
    decreases frames.len(),
{
    if frames.len() == 0 {
        Seq::empty()
    } else {
        frame_steps(frames.drop_last()) + frame_step(frames.last())
    }
}

/// The statements that leave the document of the innermost of `frames` in `__doc`.
/// At the top level there are none.
pub open spec fn frame_prefix(frames: Seq<FrameRefView>) -> Seq<char> {
    if frames.len() == 0 {
        Seq::empty()
    } else {
        "var __doc=document;"@ + frame_steps(frames)
    }
}

/// How a script ends that reports to the waiter `id`: with the result of `__r`, or
/// with the error that was caught.
pub open spec fn report(id: Seq<char>) -> Seq<char> {
    "window.__WEBDRIVER__.resolve(\""@ + id + "\",__r)}catch(__e){window.__WEBDRIVER__.resolve(\""@
        + id + "\",{error:__e.name,message:__e.message,stacktrace:__e.stack||\"\"})}})()"@
}

/// The script that runs `body` as the body of a function and reports what it
/// returns, or the error it throws, to the waiter `id`. Inside `frames` the function
/// gets the frame's document as its parameter `document`; at the top level it has no
/// parameter and sees the global one.
pub open spec fn wrapped_script(frames: Seq<FrameRefView>, body: Seq<char>, id: Seq<char>) -> Seq<
    char,
> {
    if frames.len() > 0 {
        "(function(){try{"@ + frame_prefix(frames) + "var __r=(function(document){"@ + body
            + "}).call(null,__doc);"@ + report(id)
    } else {
        "(function(){try{var __r=(function(){"@ + body + "})();"@ + report(id)
    }
}

/// The pieces of a script with `id` put between each two of them.
pub open spec fn joined(pieces: Seq<Seq<char>>, id: Seq<char>) -> Seq<char>
    decreases pieces.len(),
{
    if pieces.len() == 0 {
        Seq::empty()
    } else if pieces.len() == 1 {
        pieces[0]
    } else {
        joined(pieces.drop_last(), id) + id + pieces.last()
    }
}

/// How a script comes to report its result.
#[derive(Clone, Copy, Debug, PartialEq, Eq, Structural)]
pub enum ScriptKind {
    /// The body of a function; the server wraps it so that it reports what the
    /// function returns.
    Wrapped,
    /// A whole script that reports by itself once its rendering is done.
    Callback,
    /// A whole script that hands the page a function to report with.
    Async,
}

/// How the server shapes its answer from the result of a script.
#[derive(Debug)]
pub enum Reply {
    /// The result itself.
    Bare,
    /// Null, whatever the result.
    Null,
    /// An object with the result as its one member.
    Member(String),
}

/// What a `Reply` stands for.
pub ghost enum ReplyView {
    Bare,
    Null,
    Member(Seq<char>),
}

impl View for Reply {
    type V = ReplyView;

    open spec fn view(&self) -> ReplyView {
        match self {
            Reply::Bare => ReplyView::Bare,
            Reply::Null => ReplyView::Null,
            Reply::Member(key) => ReplyView::Member(key@),
        }
    }
}

/// A script to run in the web view, and what to answer with its result.
#[derive(Debug)]
pub struct Evaluation {
    pub kind: ScriptKind,
    /// The text of the script. A wrapped script is one piece; of any other the pieces
    /// are what stands between the places of the waiter's id.
    pub pieces: Vec<String>,
    pub reply: Reply,
}

/// What an `Evaluation` stands for.
pub ghost struct EvaluationView {
    pub kind: ScriptKind,
    pub pieces: Seq<Seq<char>>,
    pub reply: ReplyView,
}

impl View for Evaluation {
    type V = EvaluationView;

    open spec fn view(&self) -> EvaluationView {
        EvaluationView { kind: self.kind, pieces: views(self.pieces@), reply: self.reply@ }
    }
}

/// The evaluation of the function body `body`, answered as `reply` says.
pub open spec fn wrapped(body: Seq<char>, reply: ReplyView) -> EvaluationView {
    EvaluationView { kind: ScriptKind::Wrapped, pieces: seq![body], reply }
}

/// The text that is handed to the web view for the evaluation `e`, with `id` as the
/// waiter's id, in the frames `frames`.
pub open spec fn rendered(frames: Seq<FrameRefView>, e: EvaluationView, id: Seq<char>) -> Seq<
    char,
> {
    match e.kind {
        ScriptKind::Wrapped => wrapped_script(frames, joined(e.pieces, id), id),
        ScriptKind::Callback => joined(e.pieces, id),
        ScriptKind::Async => joined(e.pieces, id),
    }
}

/// What `reply` makes of the result `value`.
pub open spec fn shaped(reply: ReplyView, value: JsonValue) -> JsonValue {
    match reply {
        ReplyView::Bare => value,
        ReplyView::Null => JsonValue::Null,
        ReplyView::Member(key) => JsonValue::Object(seq![(key, value)]),
    }
}

/// The message of the failure that the result `value` reports, if it reports one:
/// an object with members `error` and `message` does, with its message where that is
/// a string.
pub open spec fn script_failure(value: JsonValue) -> Option<Seq<char>> {
    if value.get("error"@) is Some && value.get("message"@) is Some {
        Some(value.str_or("message"@, "script error"@))
    } else {
        None
    }
}

/// How the wait for a script's result ended.
#[derive(Debug)]
pub enum Outcome {
    /// The script reported this result.
    Resolved(Json),
    /// The waiter was dropped before any result came.
    ChannelClosed,
    /// No result came in time.
    TimedOut,
}

/// The longest that the server waits for the result of a script, in seconds.
pub const RENDEZVOUS_SECONDS: u64 = 30;

impl ScriptKind {
    /// The message for a script of this kind that did not report in time.
    pub open spec fn timeout_message(self) -> Seq<char> {
        match self {
            ScriptKind::Wrapped => "script timed out"@,
            ScriptKind::Callback => "screenshot timed out"@,
            ScriptKind::Async => "async script timed out"@,
        }
    }

    /// The message for a script of this kind that has no window to run in.
    pub open spec fn no_window_message(self) -> Seq<char> {
        match self {
            ScriptKind::Wrapped => "no such window"@,
            ScriptKind::Callback => "no such window"@,
            ScriptKind::Async => "no window"@,
        }
    }

    /// The failure of a script of this kind that has no window to run in.
    pub fn no_window(self) -> (e: ApiError)
        ensures
            e@ == ApiFailure::NotFound(self.no_window_message()),
    {
        match self {
            ScriptKind::Wrapped => ApiError::not_found("no such window"),
            ScriptKind::Callback => ApiError::not_found("no such window"),
            ScriptKind::Async => ApiError::not_found("no window"),
        }
    }
}

/// What the end of the wait for a script of kind `kind` means.
pub open spec fn settled(kind: ScriptKind, outcome: Outcome) -> Result<JsonValue, ApiFailure> {
    match outcome {
        Outcome::Resolved(value) => match script_failure(value@) {
            Some(message) => Err(ApiFailure::Internal(message)),
            None => Ok(value@),
        },
        Outcome::ChannelClosed => Err(ApiFailure::Internal("result channel closed"@)),
        Outcome::TimedOut => Err(ApiFailure::Internal(kind.timeout_message())),
    }
}

/// The view of a result.
pub open spec fn result_view(r: Result<Json, ApiError>) -> Result<JsonValue, ApiFailure> {
    match r {
        Ok(v) => Ok(v@),
        Err(e) => Err(e@),
    }
}

/// Writes the statements that leave the document of the innermost frame in `__doc`.
pub fn build_frame_prefix(state: &AgentState) -> (js: String)
    ensures
        js@ == frame_prefix(state@.frames),
{
    let stack = state.frames();
    if stack.len() == 0 {
        return String::new();
    }
    let mut js = String::from_str("var __doc=document;");
    let mut i: usize = 0;
    let ghost frames = state@.frames;
    assert(frames.take(0) =~= Seq::<FrameRefView>::empty());
    while i < stack.len()
        invariant
            i <= stack.len(),
            frames == state@.frames,
            stack@.len() == frames.len(),
            forall|k: int| 0 <= k < stack@.len() ==> (#[trigger] stack@[k])@ == frames[k],
            js@ == "var __doc=document;"@ + frame_steps(frames.take(i as int)),
        decreases stack.len() - i,
    {
        let fr: &FrameRef = &stack[i];
        let ghost before = js@;
        js.append("var __f=__doc.querySelectorAll(");
        js.append(json_quote(fr.selector.as_str()).as_str());
        js.append(")[");
        js.append(decimal(fr.index).as_str());
        js.append(
            "];if(!__f)throw new Error('frame not found');__doc=__f.contentDocument;if(!__doc)throw new Error('cannot access frame document');",
        );
        proof {
            let longer = frames.take(i + 1);
            assert(longer.drop_last() =~= frames.take(i as int));
            assert(longer.last() == frames[i as int]);
            assert(js@ =~= before + frame_step(frames[i as int]));
            assert(js@ =~= "var __doc=document;"@ + frame_steps(longer));
        }
        i += 1;
    }
    assert(frames.take(i as int) =~= frames);
    js
}

/// Whether the current document is that of a frame.
pub fn in_frame(state: &AgentState) -> (inside: bool)
    ensures
        inside == (state@.frames.len() > 0),
{
    state.in_frame()
}

/// Writes the end of a script that reports to the waiter `id`.
fn append_report(js: &mut String, id: &str)
    ensures
        final(js)@ == old(js)@ + report(id@),
{
    js.append("window.__WEBDRIVER__.resolve(\"");
    js.append(id);
    js.append("\",__r)}catch(__e){window.__WEBDRIVER__.resolve(\"");
    js.append(id);
    js.append("\",{error:__e.name,message:__e.message,stacktrace:__e.stack||\"\"})}})()");
    assert(js@ =~= old(js)@ + report(id@));
}

/// Wraps the function body `body` so that it runs in the current frame and reports
/// to the waiter `id`.
pub fn wrap_script(state: &AgentState, body: &str, id: &str) -> (js: String)
    ensures
        js@ == wrapped_script(state@.frames, body@, id@),
{
    if in_frame(state) {
        let mut js = String::from_str("(function(){try{");
        js.append(build_frame_prefix(state).as_str());
        js.append("var __r=(function(document){");
        js.append(body);
        js.append("}).call(null,__doc);");
        append_report(&mut js, id);
        js
    } else {
        let mut js = String::from_str("(function(){try{var __r=(function(){");
        js.append(body);
        js.append("})();");
        append_report(&mut js, id);
        js
    }
}

/// Joins the pieces of a script with `id` between each two of them.
pub fn join_pieces(pieces: &Vec<String>, id: &str) -> (js: String)
    ensures
        js@ == joined(views(pieces@), id@),
{
    let mut js = String::new();
    let ghost all = views(pieces@);
    if pieces.len() == 0 {
        return js;
    }
    js.append(pieces[0].as_str());
    let mut i: usize = 1;
    assert(all.take(1) =~= seq![all[0]]);
    assert(js@ =~= all[0]);
    while i < pieces.len()
        invariant
            1 <= i <= pieces.len(),
            all == views(pieces@),
            js@ == joined(all.take(i as int), id@),
        decreases pieces.len() - i,
    {
        js.append(id);
        js.append(pieces[i].as_str());
        proof {
            let longer = all.take(i + 1);
            assert(longer.drop_last() =~= all.take(i as int));
            assert(longer.last() == pieces@[i as int]@);
        }
        i += 1;
    }
    assert(all.take(i as int) =~= all);
    js
}

/// Writes the text to hand to the web view for `evaluation`, with `id` as the
/// waiter's id.
pub fn render(state: &AgentState, evaluation: &Evaluation, id: &str) -> (js: String)
    ensures
        js@ == rendered(state@.frames, evaluation@, id@),
{
    let text = join_pieces(&evaluation.pieces, id);
    match evaluation.kind {
        ScriptKind::Wrapped => wrap_script(state, text.as_str(), id),
        ScriptKind::Callback => text,
        ScriptKind::Async => text,
    }
}

/// Opens a wait: enters `sink` into `pending` under a fresh random id and answers
/// with the id. Only where that very id is taken, nothing is entered and the sink
/// comes back.
pub fn register<T>(pending: &mut Registry<T>, sink: T) -> (id: Result<String, T>)
    requires
        old(pending).wf(),
    ensures
        final(pending).wf(),
        exists|candidate: Seq<char>|
            #[trigger] has_key(old(pending)@, candidate) == (id is Err) && match id {
                Ok(id) => id@ == candidate && final(pending)@ == old(pending)@.push((id@, sink)),
                Err(back) => back == sink && final(pending)@ == old(pending)@,
            },
{
    let id = fresh_id();
    let key = id.clone();
    let ghost candidate = id@;
    let refused = pending.insert(key, sink);
    let answer = match refused {
        Some(back) => Err(back),
        None => Ok(id),
    };
    assert(has_key(old(pending)@, candidate) == (answer is Err));
    answer
}

/// Closes the wait `id` at its end, however it ended: the wait leaves `pending`, no
/// other wait is touched, and the answer is what the end of the wait means for a
/// script of kind `kind`.
pub fn conclude<T>(pending: &mut Registry<T>, id: &str, kind: ScriptKind, outcome: Outcome) -> (r:
    Result<Json, ApiError>)
    requires
        old(pending).wf(),
    ensures
        final(pending).wf(),
        !has_key(final(pending)@, id@),
        forall|other: Seq<char>|
            other != id@ ==> find(final(pending)@, other) == find(old(pending)@, other),
        result_view(r) == settled(kind, outcome),
{
    let _ = pending.remove(id);
    settle(kind, outcome)
}

/// Closes the wait `id` of a script that the web view did not take, for the reason
/// `reason`: the wait leaves `pending`, and the reason is the failure.
pub fn abandon<T>(pending: &mut Registry<T>, id: &str, reason: &str) -> (e: ApiError)
    requires
        old(pending).wf(),
    ensures
        final(pending).wf(),
        !has_key(final(pending)@, id@),
        forall|other: Seq<char>|
            other != id@ ==> find(final(pending)@, other) == find(old(pending)@, other),
        e@ == ApiFailure::Internal(reason@),
{
    let _ = pending.remove(id);
    ApiError::internal(reason)
}

/// Says what the end of the wait for a script of kind `kind` means: the result, or
/// the failure to answer with.
pub fn settle(kind: ScriptKind, outcome: Outcome) -> (r: Result<Json, ApiError>)
    ensures
        result_view(r) == settled(kind, outcome),
{
    match outcome {
        Outcome::Resolved(value) => {
            if value.get("error").is_some() && value.get("message").is_some() {
                Err(ApiError::Internal(value.str_or("message", "script error")))
            } else {
                Ok(value)
            }
        },
        Outcome::ChannelClosed => Err(ApiError::internal("result channel closed")),
        Outcome::TimedOut => match kind {
            ScriptKind::Wrapped => Err(ApiError::internal("script timed out")),
            ScriptKind::Callback => Err(ApiError::internal("screenshot timed out")),
            ScriptKind::Async => Err(ApiError::internal("async script timed out")),
        },
    }
}

/// Shapes the answer from the result `value` of a script.
pub fn shape_reply(reply: &Reply, value: Json) -> (out: Json)
    ensures
        out@ == shaped(reply@, value@),
{
    match reply {
        Reply::Bare => value,
        Reply::Null => Json::Null,
        Reply::Member(key) => {
            let mut entries = no_entries();
            put(&mut entries, key.as_str(), value);
            assert(entries_view(entries@) =~= seq![(key@, value@)]);
            Json::object(entries)
        },
    }
}

} // verus!
