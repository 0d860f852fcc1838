//! The browsing context of the embedded server: which window it drives and which
//! frame of that window's document it is in.

use vstd::prelude::*;
use crate::error::{ApiError, ApiFailure};
use crate::json::{Json, JsonValue};

verus! {

/// One step into a frame: the frame is the match at position `index` of `selector`
/// in the document around it.
#[derive(Debug)]
pub struct FrameRef {
    pub selector: String,
    pub index: u64,
}

/// What a `FrameRef` stands for.
pub ghost struct FrameRefView {
    pub selector: Seq<char>,
    pub index: u64,
}

impl View for FrameRef {
    type V = FrameRefView;

    open spec fn view(&self) -> FrameRefView {
        FrameRefView { selector: self.selector@, index: self.index }
    }
}

/// The browsing context of the embedded server.
pub struct AgentState {
    current_window_label: Option<String>,
    frame_stack: Vec<FrameRef>,
}

/// What an `AgentState` stands for. No window label means the default window; an
/// empty frame stack means the top-level document.
pub ghost struct AgentStateView {
    pub current_window: Option<Seq<char>>,
    pub frames: Seq<FrameRefView>,
}

impl View for AgentState {
    type V = AgentStateView;

    closed spec fn view(&self) -> AgentStateView {
        AgentStateView {
            current_window: match self.current_window_label {
                Some(label) => Some(label@),
                None => None,
            },
            frames: Seq::new(self.frame_stack@.len(), |i: int| self.frame_stack@[i]@),
        }
    }
}

/// The frame stack after a switch to the frame that `id` names. Null leads to the
/// top; a whole number `i` into the `i`-th `iframe`; an object with a string member
/// `selector` into the match of that selector at its member `index`, position 0
/// where the member holds no whole number. Anything else is refused, and an object
/// without a selector with a message of its own.
pub open spec fn frames_after_switch(frames: Seq<FrameRefView>, id: JsonValue) -> Result<
    Seq<FrameRefView>,
    ApiFailure,
> {
    if id.is_null() {
        Ok(Seq::empty())
    } else if id.as_u64() is Some {
        Ok(frames.push(FrameRefView { selector: "iframe"@, index: id.as_u64()->0 }))
    } else if id.as_object() is Some {
        match id.str_at("selector"@) {
            Some(selector) => Ok(
                frames.push(FrameRefView { selector, index: id.u64_or("index"@, 0) }),
            ),
            None => Err(ApiFailure::Internal("frame element missing selector"@)),
        }
    } else {
        Err(ApiFailure::Internal("invalid frame id"@))
    }
}

/// The frame stack one level up; at the top it stays as it is.
pub open spec fn frames_after_parent(frames: Seq<FrameRefView>) -> Seq<FrameRefView> {
    if frames.len() > 0 {
        frames.drop_last()
    } else {
        frames
    }
}

/// The message that tells of a window that the application does not have.
pub open spec fn no_window_message(label: Seq<char>) -> Seq<char> {
    "window '"@ + label + "' not found"@
}

/// The position in `known` of the window that `label` selects. A label selects the
/// window of that name. No label selects the window `main`, or the first of `known`
/// where none is called so.
pub open spec fn picked_window(label: Option<Seq<char>>, known: Seq<Seq<char>>) -> Option<int> {
    match label {
        Some(label) => first_position(known, label),
        None => match first_position(known, "main"@) {
            Some(i) => Some(i),
            None => if known.len() > 0 {
                Some(0)
            } else {
                None
            },
        },
    }
}

/// The first position of `label` in `known`.
pub open spec fn first_position(known: Seq<Seq<char>>, label: Seq<char>) -> Option<int> {
    if exists|i: int| 0 <= i < known.len() && known[i] == label {
        Some(
            choose|i: int|
                0 <= i < known.len() && known[i] == label && forall|j: int|
                    0 <= j < i ==> known[j] != label,
        )
    } else {
        None
    }
}

/// The first position of `label` in `known` is a position of it with none before.
proof fn lemma_first_position(known: Seq<Seq<char>>, label: Seq<char>, i: int)
    requires
        0 <= i < known.len(),
        known[i] == label,
        forall|j: int| 0 <= j < i ==> known[j] != label,
    ensures
        first_position(known, label) == Some(i),
{
    let k = choose|k: int|
        0 <= k < known.len() && known[k] == label && forall|j: int| 0 <= j < k ==> known[j] != label;
    if k < i {
        assert(known[k] != label);
    }
    if i < k {
        assert(known[i] != label);
    }
}

/// Finds `label` in `known`.
pub fn position_of(known: &Vec<String>, label: &str) -> (at: Option<usize>)
    ensures
        match at {
            Some(i) => first_position(crate::text::views(known@), label@) == Some(i as int) && i
                < known.len(),
            None => first_position(crate::text::views(known@), label@) is None,
        },
{
    let wanted = String::from_str(label);
    let ghost names = crate::text::views(known@);
    let mut i: usize = 0;
    while i < known.len()
        invariant
            i <= known.len(),
            wanted@ == label@,
            names == crate::text::views(known@),
            forall|j: int| 0 <= j < i ==> names[j] != label@,
        decreases known.len() - i,
    {
        if known[i] == wanted {
            proof {
                assert(names[i as int] == label@);
                lemma_first_position(names, label@, i as int);
            }
            return Some(i);
        }
        i += 1;
    }
    None
}

/// The position in `known` of the window that `label` selects.
pub fn window_by_label(label: Option<&str>, known: &Vec<String>) -> (at: Option<usize>)
    ensures
        match at {
            Some(i) => picked_window(crate::json::text_of(label), crate::text::views(known@))
                == Some(i as int) && i < known.len(),
            None => picked_window(crate::json::text_of(label), crate::text::views(known@)) is None,
        },
{
    match label {
        Some(label) => position_of(known, label),
        None => match position_of(known, "main") {
            Some(i) => Some(i),
            None => if known.len() > 0 {
                Some(0)
            } else {
                None
            },
        },
    }
}

impl AgentState {
    /// The context at the start: the default window, the top-level document.
    pub fn new() -> (state: AgentState)
        ensures
            state@ == (AgentStateView { current_window: None, frames: Seq::empty() }),
    {
        let state = AgentState { current_window_label: None, frame_stack: Vec::new() };
        assert(state@.frames =~= Seq::empty());
        state
    }

    /// The label of the current window, if one was chosen.
    pub fn current_window(&self) -> (label: Option<&str>)
        ensures
            crate::json::text_of(label) == self@.current_window,
    {
        match &self.current_window_label {
            Some(label) => Some(label.as_str()),
            None => None,
        }
    }

    /// The frames that lead from the top-level document to the current one.
    pub fn frames(&self) -> (frames: &Vec<FrameRef>)
        ensures
            frames@.len() == self@.frames.len(),
            forall|i: int| 0 <= i < frames@.len() ==> (#[trigger] frames@[i])@ == self@.frames[i],
    {
        &self.frame_stack
    }

    /// Whether the current document is that of a frame.
    pub fn in_frame(&self) -> (inside: bool)
        ensures
            inside == (self@.frames.len() > 0),
    {
        self.frame_stack.len() > 0
    }

    /// Switches to the frame that `id` names. A refused `id` leaves the context as it
    /// is.
    pub fn frame_switch(&mut self, id: &Json) -> (done: Result<(), ApiError>)
        ensures
            final(self)@.current_window == old(self)@.current_window,
            match done {
                Ok(_) => frames_after_switch(old(self)@.frames, id@) == Ok::<
                    Seq<FrameRefView>,
                    ApiFailure,
                >(final(self)@.frames),
                Err(e) => frames_after_switch(old(self)@.frames, id@) == Err::<
                    Seq<FrameRefView>,
                    ApiFailure,
                >(e@) && final(self)@ == old(self)@,
            },
    {
        if id.is_null() {
            self.frame_stack.clear();
            assert(self@.frames =~= Seq::empty());
            return Ok(());
        }
        if let Some(index) = id.as_u64() {
            self.frame_stack.push(FrameRef { selector: String::from_str("iframe"), index });
            assert(self@.frames =~= old(self)@.frames.push(
                FrameRefView { selector: "iframe"@, index },
            ));
            return Ok(());
        }
        if id.as_object().is_some() {
            match id.str_at("selector") {
                Some(selector) => {
                    let index = id.u64_or("index", 0);
                    self.frame_stack.push(FrameRef { selector: String::from_str(selector), index });
                    assert(self@.frames =~= old(self)@.frames.push(
                        FrameRefView { selector: selector@, index },
                    ));
                    return Ok(());
                },
                None => {
                    return Err(ApiError::internal("frame element missing selector"));
                },
            }
        }
        Err(ApiError::internal("invalid frame id"))
    }

    /// Leaves the current frame for the one around it.
    pub fn frame_parent(&mut self)
        ensures
            final(self)@.current_window == old(self)@.current_window,
            final(self)@.frames == frames_after_parent(old(self)@.frames),
    {
        let _ = self.frame_stack.pop();
        assert(self@.frames =~= frames_after_parent(old(self)@.frames));
    }

    /// Makes the window `label` the current one, if the application has it (`known`).
    /// The new window is entered at its top-level document.
    pub fn window_set_current(&mut self, label: &str, known: bool) -> (done: Result<(), ApiError>)
        ensures
            match done {
                Ok(_) => known && final(self)@ == (AgentStateView {
                    current_window: Some(label@),
                    frames: Seq::empty(),
                }),
                Err(e) => !known && final(self)@ == old(self)@ && e@ == ApiFailure::NotFound(
                    no_window_message(label@),
                ),
            },
    {
        if !known {
            return Err(no_window(label));
        }
        self.frame_stack.clear();
        self.current_window_label = Some(String::from_str(label));
        assert(self@.frames =~= Seq::empty());
        Ok(())
    }

    /// Takes note that the window `label` was closed: it is the current window no
    /// longer, and the context is a top-level document again.
    pub fn window_closed(&mut self, label: &str)
        ensures
            final(self)@.frames == Seq::<FrameRefView>::empty(),
            final(self)@.current_window == if old(self)@.current_window == Some(label@) {
                None
            } else {
                old(self)@.current_window
            },
    {
        let same = match &self.current_window_label {
            Some(current) => crate::text::same_text(current.as_str(), label),
            None => false,
        };
        if same {
            self.current_window_label = None;
        }
        self.frame_stack.clear();
        assert(self@.frames =~= Seq::empty());
    }
}

/// The failure that tells of a window that the application does not have.
pub fn no_window(label: &str) -> (e: ApiError)
    ensures
        e@ == ApiFailure::NotFound(no_window_message(label@)),
{
    let mut message = String::from_str("window '");
    message.append(label);
    message.append("' not found");
    ApiError::NotFound(message)
}

} // verus!
