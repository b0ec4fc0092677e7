//! From input events to wire messages, and from wire messages to what the
//! user interface is shown.

use vstd::prelude::*;
use vstd::string::*;
use crate::control::{clone_opt_text, opt_text, InputEvent};
use crate::input_capture::InputEventData;
use crate::machine::{
    button_code, click_echo, clamp32, code_of_name, key_echo, key_event, local_echo,
    motion_message, shown_char, wire_of_capture, wire_of_ui,
};
use crate::protocol::{Message, MessageView};
use crate::text::{char_from_u32, first_char_code, same_text, text_of_char, with_decimal};

verus! {

/// The view of an optional message.
pub open spec fn opt_message(m: Option<Message>) -> Option<MessageView> {
    match m {
        Some(m) => Some(m@),
        None => None,
    }
}

/// The value of `v` as a wire delta.
pub fn clamp_i32(v: i64) -> (c: i32)
    ensures
        c == clamp32(v),
{
    if v < -2147483648 {
        -2147483648
    } else if v > 2147483647 {
        2147483647
    } else {
        v as i32
    }
}

/// The motion message of a pair of deltas; a motion by nothing gives none.
pub fn motion(dx: Option<i64>, dy: Option<i64>) -> (m: Option<Message>)
    ensures
        opt_message(m) == motion_message(dx, dy),
        opt_message(m) != Some(MessageView::MouseMove { x: 0, y: 0 }),
{
    match (dx, dy) {
        (Some(dx), Some(dy)) => {
            let x = clamp_i32(dx);
            let y = clamp_i32(dy);
            if x != 0 || y != 0 {
                Some(Message::MouseMove { x, y })
            } else {
                None
            }
        },
        _ => None,
    }
}

/// The wire code of a button name.
pub fn button_from_name(key: &Option<String>) -> (code: u8)
    ensures
        code == button_code(opt_text(*key)),
{
    match key {
        Some(k) => {
            if same_text(k.as_str(), "button1") {
                1
            } else if same_text(k.as_str(), "button2") {
                2
            } else {
                0
            }
        },
        None => 0,
    }
}

/// The code of a key that is known by its name only.
pub fn code_from_name(k: &str) -> (code: u32)
    ensures
        code == code_of_name(k@),
{
    broadcast use group_string_axioms;

    let mut it = k.chars();
    let c0 = it.next();
    let c1 = it.next();
    let c2 = it.next();
    let c3 = it.next();
    let c4 = it.next();
    match (c0, c1, c2, c3, c4) {
        (Some(a), Some(b), Some(c), Some(d), None) => {
            assert(k@.len() == 4);
            assert(k@[0] == a && k@[1] == b && k@[2] == c && k@[3] == d);
            assert(k@.subrange(0, 3) =~= seq![a, b, c]);
            if (d as u32) < 128 && ((a == 'K' && b == 'e' && c == 'y') || (a == 'N' && b == 'u'
                && c == 'm')) {
                return d as u32;
            }
            assert(seq![a, b, c] == seq!['K', 'e', 'y'] ==> seq![a, b, c][0] == 'K' && seq![
                a,
                b,
                c,
            ][1] == 'e' && seq![a, b, c][2] == 'y');
            assert(seq![a, b, c] == seq!['N', 'u', 'm'] ==> seq![a, b, c][0] == 'N' && seq![
                a,
                b,
                c,
            ][1] == 'u' && seq![a, b, c][2] == 'm');
        },
        _ => {
            assert(k@.len() != 4);
        },
    }
    if same_text(k, "Return") {
        13
    } else if same_text(k, "Space") {
        32
    } else if same_text(k, "Backspace") {
        8
    } else if same_text(k, "Tab") {
        9
    } else if same_text(k, "Escape") {
        27
    } else {
        0
    }
}

/// The wire message of an input event that the user interface sends.
pub fn wire_from_ui(e: &InputEvent) -> (m: Option<Message>)
    ensures
        opt_message(m) == wire_of_ui(e@),
        opt_message(m) != Some(MessageView::MouseMove { x: 0, y: 0 }),
{
    let kind = e.event_type.as_str();
    if same_text(kind, "mousemove") {
        motion(e.dx, e.dy)
    } else if same_text(kind, "mousedown") {
        Some(Message::MouseClick { button: button_from_name(&e.key), state: true })
    } else if same_text(kind, "mouseup") {
        Some(Message::MouseClick { button: button_from_name(&e.key), state: false })
    } else if same_text(kind, "keydown") || same_text(kind, "keyup") {
        match &e.key {
            Some(k) => Some(
                Message::KeyPress {
                    key: first_char_code(k.as_str()),
                    state: same_text(kind, "keydown"),
                },
            ),
            None => None,
        }
    } else {
        None
    }
}

/// The wire message of a captured input event.
pub fn wire_from_capture(e: &InputEventData) -> (m: Option<Message>)
    ensures
        opt_message(m) == wire_of_capture(e@),
        opt_message(m) != Some(MessageView::MouseMove { x: 0, y: 0 }),
{
    let kind = e.event_type.as_str();
    if same_text(kind, "mousemove") {
        motion(e.dx, e.dy)
    } else if same_text(kind, "mousedown") || same_text(kind, "mouseup") {
        match &e.key {
            Some(_) => Some(
                Message::MouseClick {
                    button: button_from_name(&e.key),
                    state: same_text(kind, "mousedown"),
                },
            ),
            None => None,
        }
    } else if same_text(kind, "keydown") || same_text(kind, "keyup") {
        let code = match e.key_code {
            Some(c) => c,
            None => match &e.key {
                Some(k) => code_from_name(k.as_str()),
                None => 0,
            },
        };
        if code != 0 {
            Some(Message::KeyPress { key: code, state: same_text(kind, "keydown") })
        } else {
            None
        }
    } else {
        None
    }
}

fn event_of_key(event_type: &str, key: String, stamp: u64) -> (e: InputEvent)
    ensures
        e@ == key_event(event_type@, key@, stamp),
{
    InputEvent {
        event_type: event_type.to_owned(),
        x: None,
        y: None,
        dx: None,
        dy: None,
        key: Some(key),
        timestamp: stamp,
    }
}

/// What the user interface is shown of a received button change.
pub fn echo_of_click(button: u8, state: bool, stamp: u64) -> (e: InputEvent)
    ensures
        e@ == click_echo(button, state, stamp),
{
    let key = with_decimal("button", button);
    if state {
        event_of_key("mousedown", key, stamp)
    } else {
        event_of_key("mouseup", key, stamp)
    }
}

/// What the user interface is shown of a received key change.
pub fn echo_of_key(key: u32, state: bool, stamp: u64) -> (e: InputEvent)
    ensures
        e@ == key_echo(key, state, stamp),
{
    let shown = match char_from_u32(key) {
        Some(c) => {
            proof {
                vstd::utf8::char_u32_cast(c, key);
            }
            c
        },
        None => '?',
    };
    assert(shown == shown_char(key));
    let text = text_of_char(shown);
    if state {
        event_of_key("keydown", text, stamp)
    } else {
        event_of_key("keyup", text, stamp)
    }
}

/// What the user interface is shown of a captured event.
pub fn echo_of_capture(e: &InputEventData, stamp: u64) -> (shown: InputEvent)
    ensures
        shown@ == local_echo(e@, stamp),
{
    InputEvent {
        event_type: e.event_type.clone(),
        x: e.x,
        y: e.y,
        dx: e.dx,
        dy: e.dy,
        key: clone_opt_text(&e.key),
        timestamp: stamp,
    }
}

} // verus!
