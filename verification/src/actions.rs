//! Input actions on the embedded server. The sources of a request act tick by tick:
//! in each tick every source contributes the action it has at that position, all of
//! them run in the web view as one script, and the longest pause asked for is then
//! waited out.

use vstd::prelude::*;
use crate::error::{ApiError, ApiFailure};
use crate::json::{items_view, value_of, Json, JsonValue, Number, NumberValue};
use crate::outside::{json_quote, quoted};
use crate::text::{decimal, decimal_digits, same_text};

verus! {

/// How a script writes the number that `v` holds; 0 where it holds none. A whole
/// number is written by its digits, with its sign where it is negative; any other
/// number by the text it is held as.
pub open spec fn number_text(v: Option<JsonValue>) -> Seq<char> {
    match v {
        Some(JsonValue::Number(NumberValue::Unsigned(n))) => decimal_digits(n as nat),
        Some(JsonValue::Number(NumberValue::Negative(n))) => if n < 0 {
            "-"@ + decimal_digits((-n) as nat)
        } else {
            decimal_digits(n as nat)
        },
        Some(JsonValue::Number(NumberValue::Real(text))) => text,
        _ => "0"@,
    }
}

/// The statement that sends the key `key` to the element that has the focus, as the
/// event `event`. A key of one character gets the code `Key` and its capital, any
/// other its own name.
pub open spec fn key_event(event: Seq<char>, key: Seq<char>) -> Seq<char> {
    "(function(){var k="@ + quoted(key) + ";var code=k.length===1?'Key'+k.toUpperCase():k;var tgt=document.activeElement||document.body;tgt.dispatchEvent(new KeyboardEvent('"@ + event + "',{key:k,code:code,bubbles:true,cancelable:true}))})();"@
}

/// The statement that puts the pointer at the centre of the match of the CSS
/// selector `selector` at position `index`, moved by `x` and `y`. It does nothing
/// where there is no such match.
pub open spec fn place_at_element(selector: Seq<char>, index: u64, x: Seq<char>, y: Seq<char>) -> Seq<
    char,
> {
    "(function(){var el=document.querySelectorAll("@ + quoted(selector) + ")["@ + decimal_digits(index as nat) + "];if(el){var r=el.getBoundingClientRect();window.__wdPointerX=r.x+r.width/2+"@ + x + ";window.__wdPointerY=r.y+r.height/2+"@ + y + ";}})();"@
}

/// The statements that move the pointer by `x` and `y` from where it is.
pub open spec fn place_relative(x: Seq<char>, y: Seq<char>) -> Seq<char> {
    "window.__wdPointerX=(window.__wdPointerX||0)+"@ + x + ";window.__wdPointerY=(window.__wdPointerY||0)+"@ + y + ";"@
}

/// The statements that put the pointer at `x` and `y` of the viewport.
pub open spec fn place_absolute(x: Seq<char>, y: Seq<char>) -> Seq<char> {
    "window.__wdPointerX="@ + x + ";window.__wdPointerY="@ + y + ";"@
}

/// The statements that put the pointer where the move `action` says. An origin that
/// is an object refers to an element by its first member, and means that element's
/// centre; where that member is no object the pointer stays. The origin `pointer`
/// means the place of the pointer, any other the viewport.
pub open spec fn pointer_place(action: JsonValue) -> Seq<char> {
    let x = number_text(action.get("x"@));
    let y = number_text(action.get("y"@));
    match action.get("origin"@) {
        Some(JsonValue::Object(members)) => if members.len() > 0 && members[0].1 is Object {
            place_at_element(
                members[0].1.str_or("selector"@, ""@),
                members[0].1.u64_or("index"@, 0),
                x,
                y,
            )
        } else {
            Seq::empty()
        },
        Some(JsonValue::Str(origin)) => if origin == "pointer"@ {
            place_relative(x, y)
        } else {
            place_absolute(x, y)
        },
        _ => place_absolute(x, y),
    }
}

/// The statement that tells the element under the pointer that the pointer moved.
pub const MOUSE_MOVE: &'static str = "(function(){var tgt=document.elementFromPoint(window.__wdPointerX||0,window.__wdPointerY||0)||document.body;tgt.dispatchEvent(new MouseEvent('mousemove',{clientX:window.__wdPointerX||0,clientY:window.__wdPointerY||0,bubbles:true,cancelable:true}))})();";

/// The statement that presses the button `button` on the element under the pointer.
pub open spec fn pointer_down(button: u64) -> Seq<char> {
    "(function(){var tgt=document.elementFromPoint(window.__wdPointerX||0,window.__wdPointerY||0)||document.body;tgt.dispatchEvent(new MouseEvent('mousedown',{clientX:window.__wdPointerX||0,clientY:window.__wdPointerY||0,button:"@ + decimal_digits(button as nat) + ",bubbles:true,cancelable:true}))})();"@
}

/// The statement that releases the button `button` on the element under the
/// pointer, and clicks it.
pub open spec fn pointer_up(button: u64) -> Seq<char> {
    "(function(){var tgt=document.elementFromPoint(window.__wdPointerX||0,window.__wdPointerY||0)||document.body;tgt.dispatchEvent(new MouseEvent('mouseup',{clientX:window.__wdPointerX||0,clientY:window.__wdPointerY||0,button:"@ + decimal_digits(button as nat) + ",bubbles:true,cancelable:true}));tgt.dispatchEvent(new MouseEvent('click',{clientX:window.__wdPointerX||0,clientY:window.__wdPointerY||0,button:"@ + decimal_digits(button as nat) + ",bubbles:true,cancelable:true}))})();"@
}

/// The statement that turns the wheel by `dx` and `dy` over the element at `x` and
/// `y`.
pub open spec fn wheel_event(x: Seq<char>, y: Seq<char>, dx: Seq<char>, dy: Seq<char>) -> Seq<
    char,
> {
    "(function(){var tgt=document.elementFromPoint("@ + x + ","@ + y + ")||document.body;tgt.dispatchEvent(new WheelEvent('wheel',{clientX:"@ + x + ",clientY:"@ + y + ",deltaX:"@ + dx + ",deltaY:"@ + dy + ",bubbles:true,cancelable:true}))})();"@
}

/// The kind of the action `action`; an action that names none is a pause.
pub open spec fn action_type(action: JsonValue) -> Seq<char> {
    action.str_or("type"@, "pause"@)
}

/// The statements by which a source of type `source` performs `action`. A pause, and
/// an action that the source does not know, has none.
pub open spec fn action_script(source: Seq<char>, action: JsonValue) -> Seq<char> {
    let kind = action_type(action);
    if source == "key"@ && kind == "keyDown"@ {
        key_event("keydown"@, action.str_or("value"@, ""@))
    } else if source == "key"@ && kind == "keyUp"@ {
        key_event("keyup"@, action.str_or("value"@, ""@))
    } else if source == "pointer"@ && kind == "pointerMove"@ {
        pointer_place(action) + MOUSE_MOVE@
    } else if source == "pointer"@ && kind == "pointerDown"@ {
        pointer_down(action.u64_or("button"@, 0))
    } else if source == "pointer"@ && kind == "pointerUp"@ {
        pointer_up(action.u64_or("button"@, 0))
    } else if source == "wheel"@ && kind == "scroll"@ {
        wheel_event(
            number_text(action.get("x"@)),
            number_text(action.get("y"@)),
            number_text(action.get("deltaX"@)),
            number_text(action.get("deltaY"@)),
        )
    } else {
        Seq::empty()
    }
}

/// The pause in milliseconds that `action` asks for: its duration where it is a
/// pause, none otherwise.
pub open spec fn action_pause(action: JsonValue) -> u64 {
    if action_type(action) == "pause"@ {
        action.u64_or("duration"@, 0)
    } else {
        0
    }
}

/// The type of the source `sequence`.
pub open spec fn source_type(sequence: JsonValue) -> Seq<char> {
    sequence.str_or("type"@, "null"@)
}

/// The action that the source `sequence` has at `tick`.
pub open spec fn tick_action(sequence: JsonValue, tick: int) -> Option<JsonValue> {
    match sequence.array_at("actions"@) {
        Some(actions) => if 0 <= tick < actions.len() {
            Some(actions[tick])
        } else {
            None
        },
        None => None,
    }
}

/// The statements of `sequence` at `tick`.
pub open spec fn source_script(sequence: JsonValue, tick: int) -> Seq<char> {
    match tick_action(sequence, tick) {
        Some(action) => action_script(source_type(sequence), action),
        None => Seq::empty(),
    }
}

/// The pause that `sequence` asks for at `tick`.
pub open spec fn source_pause(sequence: JsonValue, tick: int) -> u64 {
    match tick_action(sequence, tick) {
        Some(action) => action_pause(action),
        None => 0,
    }
}

/// The statements of all `sequences` at `tick`, in the order of the sources.
pub open spec fn tick_text(sequences: Seq<JsonValue>, tick: int) -> Seq<char>
    decreases sequences.len(),
{
    if sequences.len() == 0 {
        Seq::empty()
    } else {
        tick_text(sequences.drop_last(), tick) + source_script(sequences.last(), tick)
    }
}

/// The longest pause that one of `sequences` asks for at `tick`.
pub open spec fn tick_pause(sequences: Seq<JsonValue>, tick: int) -> u64
    decreases sequences.len(),
{
    if sequences.len() == 0 {
        0
    } else {
        let before = tick_pause(sequences.drop_last(), tick);
        let here = source_pause(sequences.last(), tick);
        if here > before {
            here
        } else {
            before
        }
    }
}

/// The number of actions of `sequence`.
pub open spec fn source_length(sequence: JsonValue) -> nat {
    match sequence.array_at("actions"@) {
        Some(actions) => actions.len(),
        None => 0,
    }
}

/// The number of ticks of `sequences`: the length of the longest.
pub open spec fn tick_count_spec(sequences: Seq<JsonValue>) -> nat
    decreases sequences.len(),
{
    if sequences.len() == 0 {
        0
    } else {
        let before = tick_count_spec(sequences.drop_last());
        let here = source_length(sequences.last());
        if here > before {
            here
        } else {
            before
        }
    }
}

/// What one tick asks of the server: a script to run in the web view, unless no
/// source has anything to do, and a time to wait after it.
#[derive(Debug)]
pub struct Tick {
    pub script: Option<String>,
    pub pause_ms: u64,
}

/// What a `Tick` stands for.
pub ghost struct TickView {
    pub script: Option<Seq<char>>,
    pub pause_ms: u64,
}

impl View for Tick {
    type V = TickView;

    open spec fn view(&self) -> TickView {
        TickView {
            script: match self.script {
                Some(s) => Some(s@),
                None => None,
            },
            pause_ms: self.pause_ms,
        }
    }
}

/// What the tick `tick` of `sequences` asks of the server. The script is the
/// statements of the tick as a function body that returns null.
pub open spec fn tick_plan(sequences: Seq<JsonValue>, tick: int) -> TickView {
    TickView {
        script: if tick_text(sequences, tick).len() > 0 {
            Some(tick_text(sequences, tick) + "return null"@)
        } else {
            None
        },
        pause_ms: tick_pause(sequences, tick),
    }
}

/// What a request to perform actions asks of the server, tick by tick. A request
/// without an array `actions` is refused.
pub open spec fn actions_plan(body: JsonValue) -> Result<Seq<TickView>, ApiFailure> {
    match body.array_at("actions"@) {
        Some(sequences) => Ok(
            Seq::new(tick_count_spec(sequences), |tick: int| tick_plan(sequences, tick)),
        ),
        None => Err(ApiFailure::Internal("Missing 'actions' array"@)),
    }
}

/// Writes the number that `v` holds as a script writes it.
pub fn number_literal(v: Option<&Json>) -> (text: String)
    ensures
        text@ == number_text(value_of(v)),
{
    match v {
        Some(Json::Number(Number::Unsigned(n))) => decimal(*n),
        Some(Json::Number(Number::Negative(n))) => {
            if *n < 0 {
                let magnitude: u64 = (-(*n + 1)) as u64 + 1;
                let mut text = String::from_str("-");
                text.append(decimal(magnitude).as_str());
                text
            } else {
                decimal(*n as u64)
            }
        },
        Some(Json::Number(Number::Real(text))) => text.clone(),
        _ => String::from_str("0"),
    }
}

fn key_event_js(event: &str, key: &str) -> (js: String)
    ensures
        js@ == key_event(event@, key@),
{
    let mut js = String::from_str("(function(){var k=");
    js.append(json_quote(key).as_str());
    js.append(";var code=k.length===1?'Key'+k.toUpperCase():k;var tgt=document.activeElement||document.body;tgt.dispatchEvent(new KeyboardEvent('");
    js.append(event);
    js.append("',{key:k,code:code,bubbles:true,cancelable:true}))})();");
    js
}

fn place_at_element_js(selector: &str, index: u64, x: &str, y: &str) -> (js: String)
    ensures
        js@ == place_at_element(selector@, index, x@, y@),
{
    let mut js = String::from_str("(function(){var el=document.querySelectorAll(");
    js.append(json_quote(selector).as_str());
    js.append(")[");
    js.append(decimal(index).as_str());
    js.append("];if(el){var r=el.getBoundingClientRect();window.__wdPointerX=r.x+r.width/2+");
    js.append(x);
    js.append(";window.__wdPointerY=r.y+r.height/2+");
    js.append(y);
    js.append(";}})();");
    js
}

fn place_relative_js(x: &str, y: &str) -> (js: String)
    ensures
        js@ == place_relative(x@, y@),
{
    let mut js = String::from_str("window.__wdPointerX=(window.__wdPointerX||0)+");
    js.append(x);
    js.append(";window.__wdPointerY=(window.__wdPointerY||0)+");
    js.append(y);
    js.append(";");
    js
}

fn place_absolute_js(x: &str, y: &str) -> (js: String)
    ensures
        js@ == place_absolute(x@, y@),
{
    let mut js = String::from_str("window.__wdPointerX=");
    js.append(x);
    js.append(";window.__wdPointerY=");
    js.append(y);
    js.append(";");
    js
}

fn pointer_place_js(action: &Json) -> (js: String)
    ensures
        js@ == pointer_place(action@),
{
    let x = number_literal(action.get("x"));
    let y = number_literal(action.get("y"));
    match action.get("origin") {
        Some(Json::Object(members)) => {
            proof {
                crate::json::lemma_object_view(*members);
            }
            if members.len() > 0 {
                let target = &members[0].1;
                match target {
                    Json::Object(inner) => {
                        proof {
                            crate::json::lemma_object_view(*inner);
                        }
                        let selector = target.str_or("selector", "");
                        let index = target.u64_or("index", 0);
                        place_at_element_js(selector.as_str(), index, x.as_str(), y.as_str())
                    },
                    _ => String::new(),
                }
            } else {
                String::new()
            }
        },
        Some(Json::Str(origin)) => {
            if same_text(origin.as_str(), "pointer") {
                place_relative_js(x.as_str(), y.as_str())
            } else {
                place_absolute_js(x.as_str(), y.as_str())
            }
        },
        _ => place_absolute_js(x.as_str(), y.as_str()),
    }
}

fn pointer_down_js(button: u64) -> (js: String)
    ensures
        js@ == pointer_down(button),
{
    let mut js = String::from_str("(function(){var tgt=document.elementFromPoint(window.__wdPointerX||0,window.__wdPointerY||0)||document.body;tgt.dispatchEvent(new MouseEvent('mousedown',{clientX:window.__wdPointerX||0,clientY:window.__wdPointerY||0,button:");
    js.append(decimal(button).as_str());
    js.append(",bubbles:true,cancelable:true}))})();");
    js
}

fn pointer_up_js(button: u64) -> (js: String)
    ensures
        js@ == pointer_up(button),
{
    let mut js = String::from_str("(function(){var tgt=document.elementFromPoint(window.__wdPointerX||0,window.__wdPointerY||0)||document.body;tgt.dispatchEvent(new MouseEvent('mouseup',{clientX:window.__wdPointerX||0,clientY:window.__wdPointerY||0,button:");
    js.append(decimal(button).as_str());
    js.append(",bubbles:true,cancelable:true}));tgt.dispatchEvent(new MouseEvent('click',{clientX:window.__wdPointerX||0,clientY:window.__wdPointerY||0,button:");
    js.append(decimal(button).as_str());
    js.append(",bubbles:true,cancelable:true}))})();");
    js
}

fn wheel_event_js(x: &str, y: &str, dx: &str, dy: &str) -> (js: String)
    ensures
        js@ == wheel_event(x@, y@, dx@, dy@),
{
    let mut js = String::from_str("(function(){var tgt=document.elementFromPoint(");
    js.append(x);
    js.append(",");
    js.append(y);
    js.append(")||document.body;tgt.dispatchEvent(new WheelEvent('wheel',{clientX:");
    js.append(x);
    js.append(",clientY:");
    js.append(y);
    js.append(",deltaX:");
    js.append(dx);
    js.append(",deltaY:");
    js.append(dy);
    js.append(",bubbles:true,cancelable:true}))})();");
    js
}

/// Writes the statements by which a source of type `source` performs `action`.
pub fn action_js(source: &str, action: &Json) -> (js: String)
    ensures
        js@ == action_script(source@, action@),
{
    let kind = action.str_or("type", "pause");
    let key = same_text(source, "key");
    let pointer = same_text(source, "pointer");
    if key && same_text(kind.as_str(), "keyDown") {
        key_event_js("keydown", action.str_or("value", "").as_str())
    } else if key && same_text(kind.as_str(), "keyUp") {
        key_event_js("keyup", action.str_or("value", "").as_str())
    } else if pointer && same_text(kind.as_str(), "pointerMove") {
        let mut js = pointer_place_js(action);
        js.append(MOUSE_MOVE);
        js
    } else if pointer && same_text(kind.as_str(), "pointerDown") {
        pointer_down_js(action.u64_or("button", 0))
    } else if pointer && same_text(kind.as_str(), "pointerUp") {
        pointer_up_js(action.u64_or("button", 0))
    } else if same_text(source, "wheel") && same_text(kind.as_str(), "scroll") {
        let x = number_literal(action.get("x"));
        let y = number_literal(action.get("y"));
        let dx = number_literal(action.get("deltaX"));
        let dy = number_literal(action.get("deltaY"));
        wheel_event_js(x.as_str(), y.as_str(), dx.as_str(), dy.as_str())
    } else {
        String::new()
    }
}

/// The pause in milliseconds that `action` asks for.
pub fn pause_of(action: &Json) -> (ms: u64)
    ensures
        ms == action_pause(action@),
{
    let kind = action.str_or("type", "pause");
    if same_text(kind.as_str(), "pause") {
        action.u64_or("duration", 0)
    } else {
        0
    }
}

/// The action that the source `sequence` has at `tick`.
pub fn action_at(sequence: &Json, tick: usize) -> (action: Option<&Json>)
    ensures
        value_of(action) == tick_action(sequence@, tick as int),
{
    match sequence.array_at("actions") {
        Some(actions) => if tick < actions.len() {
            Some(&actions[tick])
        } else {
            None
        },
        None => None,
    }
}

/// The number of ticks of `sequences`.
pub fn tick_count(sequences: &Vec<Json>) -> (count: usize)
    ensures
        count == tick_count_spec(items_view(sequences@)),
{
    let ghost all = items_view(sequences@);
    let mut count: usize = 0;
    let mut i: usize = 0;
    assert(all.take(0) =~= Seq::<JsonValue>::empty());
    while i < sequences.len()
        invariant
            i <= sequences.len(),
            all == items_view(sequences@),
            count == tick_count_spec(all.take(i as int)),
        decreases sequences.len() - i,
    {
        let here = match sequences[i].array_at("actions") {
            Some(actions) => actions.len(),
            None => 0,
        };
        proof {
            let longer = all.take(i + 1);
            assert(longer.drop_last() =~= all.take(i as int));
            assert(longer.last() == sequences@[i as int]@);
        }
        if here > count {
            count = here;
        }
        i += 1;
    }
    assert(all.take(i as int) =~= all);
    count
}

/// Says what the tick `tick` of `sequences` asks of the server.
pub fn plan_tick(sequences: &Vec<Json>, tick: usize) -> (plan: Tick)
    ensures
        plan@ == tick_plan(items_view(sequences@), tick as int),
{
    let ghost all = items_view(sequences@);
    let mut js = String::new();
    let mut pause_ms: u64 = 0;
    let mut i: usize = 0;
    assert(all.take(0) =~= Seq::<JsonValue>::empty());
    while i < sequences.len()
        invariant
            i <= sequences.len(),
            all == items_view(sequences@),
            js@ == tick_text(all.take(i as int), tick as int),
            pause_ms == tick_pause(all.take(i as int), tick as int),
        decreases sequences.len() - i,
    {
        let sequence = &sequences[i];
        proof {
            let longer = all.take(i + 1);
            assert(longer.drop_last() =~= all.take(i as int));
            assert(longer.last() == sequence@);
        }
        match action_at(sequence, tick) {
            Some(action) => {
                let source = sequence.str_or("type", "null");
                js.append(action_js(source.as_str(), action).as_str());
                let here = pause_of(action);
                if here > pause_ms {
                    pause_ms = here;
                }
            },
            None => {
                assert(js@ + Seq::<char>::empty() =~= js@);
            },
        }
        i += 1;
    }
    assert(all.take(i as int) =~= all);
    let script = if js.as_str().is_empty() {
        None
    } else {
        js.append("return null");
        Some(js)
    };
    Tick { script, pause_ms }
}

/// The view of a result.
pub open spec fn plan_view(r: Result<Vec<Tick>, ApiError>) -> Result<Seq<TickView>, ApiFailure> {
    match r {
        Ok(ticks) => Ok(Seq::new(ticks@.len(), |i: int| ticks@[i]@)),
        Err(e) => Err(e@),
    }
}

/// Says what a request to perform actions asks of the server, tick by tick. The
/// server runs the script of each tick, then waits out its pause, and gives up at the
/// first script that fails.
pub fn actions_perform(body: &Json) -> (plan: Result<Vec<Tick>, ApiError>)
    ensures
        plan_view(plan) == actions_plan(body@),
{
    let sequences = match body.array_at("actions") {
        Some(sequences) => sequences,
        None => {
            return Err(ApiError::internal("Missing 'actions' array"));
        },
    };
    let ghost all = items_view(sequences@);
    let count = tick_count(sequences);
    let mut ticks: Vec<Tick> = Vec::new();
    let mut tick: usize = 0;
    while tick < count
        invariant
            tick <= count,
            all == items_view(sequences@),
            ticks@.len() == tick,
            forall|t: int| 0 <= t < tick ==> (#[trigger] ticks@[t])@ == tick_plan(all, t),
        decreases count - tick,
    {
        ticks.push(plan_tick(sequences, tick));
        tick += 1;
    }
    assert(Seq::new(ticks@.len(), |i: int| ticks@[i]@) =~= Seq::new(
        tick_count_spec(all),
        |t: int| tick_plan(all, t),
    ));
    Ok(ticks)
}

/// The answer to a request to release all keys and buttons. The server keeps no
/// key or button pressed from one request to the next, so there is nothing to do.
pub fn actions_release() -> (out: Json)
    ensures
        out@ == JsonValue::Null,
{
    Json::Null
}

} // verus!
