//! Capture: what the global input hook does with each event of the host.
//!
//! While capture runs, every event is consumed and forwarded, and the
//! pointer is kept on a fixed anchor so that each motion is reported as a
//! pure delta. Control+Alt+Q ends capture; that key press is passed through
//! to the host, and so is every event after it.

use vstd::prelude::*;
use crate::control::opt_text;
use crate::keys::{code_of_key, rdev_key_to_code, Button, Key};

verus! {

/// Where the pointer is pinned while capture runs.
pub const ANCHOR_X: i32 = 500;

pub const ANCHOR_Y: i32 = 500;

/// A captured input event on its way to the coordinator.
#[derive(Debug, PartialEq, Eq)]
pub struct InputEventData {
    pub event_type: String,
    pub key: Option<String>,
    pub key_code: Option<u32>,
    pub x: Option<i64>,
    pub y: Option<i64>,
    pub dx: Option<i64>,
    pub dy: Option<i64>,
}

/// What an [`InputEventData`] is, with strings as sequences of characters.
pub struct InputEventDataView {
    pub event_type: Seq<char>,
    pub key: Option<Seq<char>>,
    pub key_code: Option<u32>,
    pub x: Option<i64>,
    pub y: Option<i64>,
    pub dx: Option<i64>,
    pub dy: Option<i64>,
}

impl View for InputEventData {
    type V = InputEventDataView;

    open spec fn view(&self) -> InputEventDataView {
        InputEventDataView {
            event_type: self.event_type@,
            key: opt_text(self.key),
            key_code: self.key_code,
            x: self.x,
            y: self.y,
            dx: self.dx,
            dy: self.dy,
        }
    }
}

/// What the hook tells the coordinator.
#[derive(Debug, PartialEq, Eq)]
pub enum CaptureControl {
    InputEvent(InputEventData),
    /// The escape combination was pressed.
    ExitRequested,
}

/// What a [`CaptureControl`] is, with strings as sequences of characters.
pub enum CaptureControlView {
    InputEvent(InputEventDataView),
    ExitRequested,
}

impl View for CaptureControl {
    type V = CaptureControlView;

    open spec fn view(&self) -> CaptureControlView {
        match *self {
            CaptureControl::InputEvent(e) => CaptureControlView::InputEvent(e@),
            CaptureControl::ExitRequested => CaptureControlView::ExitRequested,
        }
    }
}

/// An event of the host, as the hook receives it. A key comes with the
/// name that the host gives it; a pointer position is in whole pixels.
#[derive(Debug, PartialEq, Eq)]
pub enum HookEvent {
    KeyPress { key: Key, name: String },
    KeyRelease { key: Key, name: String },
    ButtonPress(Button),
    ButtonRelease(Button),
    MouseMove { x: i32, y: i32 },
    Wheel { delta_x: i64, delta_y: i64 },
}

/// What a [`HookEvent`] is, with strings as sequences of characters.
pub enum HookEventView {
    KeyPress { key: Key, name: Seq<char> },
    KeyRelease { key: Key, name: Seq<char> },
    ButtonPress(Button),
    ButtonRelease(Button),
    MouseMove { x: i32, y: i32 },
    Wheel { delta_x: i64, delta_y: i64 },
}

impl View for HookEvent {
    type V = HookEventView;

    open spec fn view(&self) -> HookEventView {
        match *self {
            HookEvent::KeyPress { key, name } => HookEventView::KeyPress { key, name: name@ },
            HookEvent::KeyRelease { key, name } => HookEventView::KeyRelease { key, name: name@ },
            HookEvent::ButtonPress(b) => HookEventView::ButtonPress(b),
            HookEvent::ButtonRelease(b) => HookEventView::ButtonRelease(b),
            HookEvent::MouseMove { x, y } => HookEventView::MouseMove { x, y },
            HookEvent::Wheel { delta_x, delta_y } => HookEventView::Wheel { delta_x, delta_y },
        }
    }
}

/// What the hook does with one event.
#[derive(Debug, PartialEq, Eq)]
pub struct HookVerdict {
    /// What goes to the coordinator, if anything.
    pub control: Option<CaptureControl>,
    /// Whether the event is consumed; otherwise the host gets it.
    pub block: bool,
    /// Whether the pointer is to be put back on the anchor.
    pub recenter: bool,
}

/// The view of what goes to the coordinator.
pub open spec fn control_view(c: Option<CaptureControl>) -> Option<CaptureControlView> {
    match c {
        Some(c) => Some(c@),
        None => None,
    }
}

/// The state of the hook.
#[derive(Debug, Clone, Copy, PartialEq, Eq, Structural)]
pub struct InputCapture {
    /// Set when capture has ended: from then on nothing is consumed.
    pub stopped: bool,
    /// Whether a control key is held.
    pub ctrl: bool,
    /// Whether an alt key is held.
    pub alt: bool,
    /// Whether the host lets the pointer be put back on the anchor. Where
    /// it does not, deltas are taken between successive reports.
    pub can_reposition: bool,
    /// The position that the next motion is measured from.
    pub last_x: i32,
    pub last_y: i32,
}

pub open spec fn is_control_key(key: Key) -> bool {
    key == Key::ControlLeft || key == Key::ControlRight
}

pub open spec fn is_alt_key(key: Key) -> bool {
    key == Key::Alt || key == Key::AltGr
}

/// The name under which a button travels.
pub open spec fn button_name(b: Button) -> Seq<char> {
    match b {
        Button::Left => "button0"@,
        Button::Right => "button1"@,
        Button::Middle => "button2"@,
        Button::Unknown(_) => "button0"@,
    }
}

/// An event with a type and nothing else.
pub open spec fn bare_event(event_type: Seq<char>) -> InputEventDataView {
    InputEventDataView {
        event_type,
        key: None,
        key_code: None,
        x: None,
        y: None,
        dx: None,
        dy: None,
    }
}

/// Whether `e` completes the escape combination in state `s`.
pub open spec fn is_exit(s: InputCapture, e: HookEventView) -> bool {
    e matches HookEventView::KeyPress { key, .. } && key == Key::KeyQ && s.ctrl && s.alt
}

/// The state after `e`, for an event that does not end capture: the two
/// modifiers follow their keys, and a motion moves the measuring point.
pub open spec fn next_state(s: InputCapture, e: HookEventView) -> InputCapture {
    match e {
        HookEventView::KeyPress { key, .. } => InputCapture {
            ctrl: s.ctrl || is_control_key(key),
            alt: s.alt || is_alt_key(key),
            ..s
        },
        HookEventView::KeyRelease { key, .. } => InputCapture {
            ctrl: s.ctrl && !is_control_key(key),
            alt: s.alt && !is_alt_key(key),
            ..s
        },
        HookEventView::MouseMove { x, y } => if x == s.last_x && y == s.last_y {
            s
        } else if s.can_reposition {
            InputCapture { last_x: ANCHOR_X, last_y: ANCHOR_Y, ..s }
        } else {
            InputCapture { last_x: x, last_y: y, ..s }
        },
        _ => s,
    }
}

/// What an event that does not end capture sends to the coordinator. A
/// motion sends its delta from the measuring point, and nothing when that
/// delta is zero.
pub open spec fn forwarded(s: InputCapture, e: HookEventView) -> Option<InputEventDataView> {
    match e {
        HookEventView::KeyPress { key, name } => Some(
            InputEventDataView {
                key: Some(name),
                key_code: Some(code_of_key(key)),
                ..bare_event("keydown"@)
            },
        ),
        HookEventView::KeyRelease { key, name } => Some(
            InputEventDataView {
                key: Some(name),
                key_code: Some(code_of_key(key)),
                ..bare_event("keyup"@)
            },
        ),
        HookEventView::ButtonPress(b) => Some(
            InputEventDataView { key: Some(button_name(b)), ..bare_event("mousedown"@) },
        ),
        HookEventView::ButtonRelease(b) => Some(
            InputEventDataView { key: Some(button_name(b)), ..bare_event("mouseup"@) },
        ),
        HookEventView::MouseMove { x, y } => if x == s.last_x && y == s.last_y {
            None
        } else {
            Some(
                InputEventDataView {
                    dx: Some((x - s.last_x) as i64),
                    dy: Some((y - s.last_y) as i64),
                    ..bare_event("mousemove"@)
                },
            )
        },
        HookEventView::Wheel { delta_x, delta_y } => Some(
            InputEventDataView { dx: Some(delta_x), dy: Some(delta_y), ..bare_event("wheel"@) },
        ),
    }
}

fn name_of_button(b: Button) -> (name: String)
    ensures
        name@ == button_name(b),
{
    match b {
        Button::Left => "button0".to_owned(),
        Button::Right => "button1".to_owned(),
        Button::Middle => "button2".to_owned(),
        Button::Unknown(_) => "button0".to_owned(),
    }
}

fn bare(event_type: &str) -> (e: InputEventData)
    ensures
        e@ == bare_event(event_type@),
{
    InputEventData {
        event_type: event_type.to_owned(),
        key: None,
        key_code: None,
        x: None,
        y: None,
        dx: None,
        dy: None,
    }
}

impl InputCapture {
    /// The hook at the start of capture: nothing held, the pointer on the
    /// anchor.
    pub fn new(can_reposition: bool) -> (hook: Self)
        ensures
            hook == (InputCapture {
                stopped: false,
                ctrl: false,
                alt: false,
                can_reposition,
                last_x: ANCHOR_X,
                last_y: ANCHOR_Y,
            }),
    {
        InputCapture {
            stopped: false,
            ctrl: false,
            alt: false,
            can_reposition,
            last_x: ANCHOR_X,
            last_y: ANCHOR_Y,
        }
    }

    /// Ends capture: every later event is passed through.
    pub fn stop_capture(&mut self)
        ensures
            *final(self) == (InputCapture { stopped: true, ..*old(self) }),
    {
        self.stopped = true;
    }

    /// Handles one event of the host.
    ///
    /// After capture has ended the event is passed through and nothing
    /// changes. The escape combination ends capture, asks the coordinator
    /// to exit and is passed through. Every other event is consumed and
    /// forwarded; a motion that moved the pointer asks for it to be put back
    /// on the anchor where the host allows that.
    pub fn on_event(&mut self, event: HookEvent) -> (verdict: HookVerdict)
        ensures
            old(self).stopped ==> *final(self) == *old(self) && verdict.control is None
                && !verdict.block && !verdict.recenter,
            !old(self).stopped && is_exit(*old(self), event@) ==> *final(self) == (InputCapture {
                stopped: true,
                ..*old(self)
            }) && control_view(verdict.control) == Some(CaptureControlView::ExitRequested)
                && !verdict.block && !verdict.recenter,
            !old(self).stopped && !is_exit(*old(self), event@) ==> *final(self) == next_state(
                *old(self),
                event@,
            ) && verdict.block && control_view(verdict.control) == (match forwarded(
                *old(self),
                event@,
            ) {
                Some(e) => Some(CaptureControlView::InputEvent(e)),
                None => None,
            }) && verdict.recenter == (old(self).can_reposition && event@ is MouseMove
                && forwarded(*old(self), event@) is Some),
    {
        if self.stopped {
            return HookVerdict { control: None, block: false, recenter: false };
        }
        let data = match event {
            HookEvent::KeyPress { key, name } => {
                if key == Key::KeyQ && self.ctrl && self.alt {
                    self.stopped = true;
                    return HookVerdict {
                        control: Some(CaptureControl::ExitRequested),
                        block: false,
                        recenter: false,
                    };
                }
                if key == Key::ControlLeft || key == Key::ControlRight {
                    self.ctrl = true;
                }
                if key == Key::Alt || key == Key::AltGr {
                    self.alt = true;
                }
                let mut e = bare("keydown");
                e.key = Some(name);
                e.key_code = Some(rdev_key_to_code(key));
                Some(e)
            },
            HookEvent::KeyRelease { key, name } => {
                if key == Key::ControlLeft || key == Key::ControlRight {
                    self.ctrl = false;
                }
                if key == Key::Alt || key == Key::AltGr {
                    self.alt = false;
                }
                let mut e = bare("keyup");
                e.key = Some(name);
                e.key_code = Some(rdev_key_to_code(key));
                Some(e)
            },
            HookEvent::ButtonPress(b) => {
                let mut e = bare("mousedown");
                e.key = Some(name_of_button(b));
                Some(e)
            },
            HookEvent::ButtonRelease(b) => {
                let mut e = bare("mouseup");
                e.key = Some(name_of_button(b));
                Some(e)
            },
            HookEvent::MouseMove { x, y } => {
                if x == self.last_x && y == self.last_y {
                    None
                } else {
                    let mut e = bare("mousemove");
                    e.dx = Some(x as i64 - self.last_x as i64);
                    e.dy = Some(y as i64 - self.last_y as i64);
                    if self.can_reposition {
                        self.last_x = ANCHOR_X;
                        self.last_y = ANCHOR_Y;
                        return HookVerdict {
                            control: Some(CaptureControl::InputEvent(e)),
                            block: true,
                            recenter: true,
                        };
                    }
                    self.last_x = x;
                    self.last_y = y;
                    Some(e)
                }
            },
            HookEvent::Wheel { delta_x, delta_y } => {
                let mut e = bare("wheel");
                e.dx = Some(delta_x);
                e.dy = Some(delta_y);
                Some(e)
            },
        };
        let control = match data {
            Some(e) => Some(CaptureControl::InputEvent(e)),
            None => None,
        };
        HookVerdict { control, block: true, recenter: false }
    }
}

/// A key that is held for longer than this, in milliseconds, is a long
/// press.
pub const LONG_PRESS_MS: u64 = 500;

/// How often the held keys are looked at, in milliseconds.
pub const LONG_PRESS_TICK_MS: u64 = 100;

/// A key that is held, as contracts see it: the key, its name, and since
/// when.
pub struct HeldView {
    pub key: Key,
    pub name: Seq<char>,
    pub since: u64,
}

struct Held {
    key: Key,
    name: String,
    since: u64,
}

impl View for Held {
    type V = HeldView;

    closed spec fn view(&self) -> HeldView {
        HeldView { key: self.key, name: self.name@, since: self.since }
    }
}

/// Whether `key` is among the held keys `s`.
pub open spec fn is_held(s: Seq<HeldView>, key: Key) -> bool {
    exists|i: int| 0 <= i < s.len() && #[trigger] s[i].key == key
}

/// The held keys after `key` went down at `now`: a key that is held
/// already keeps its time.
pub open spec fn after_press(s: Seq<HeldView>, key: Key, name: Seq<char>, now: u64) -> Seq<HeldView> {
    if is_held(s, key) {
        s
    } else {
        s.push(HeldView { key, name, since: now })
    }
}

/// The held keys after `key` went up.
pub open spec fn after_release(s: Seq<HeldView>, key: Key) -> Seq<HeldView> {
    s.filter(|h: HeldView| h.key != key)
}

/// Whether a held key is a long press at `now`.
pub open spec fn is_long_press(h: HeldView, now: u64) -> bool {
    now - h.since > LONG_PRESS_MS
}

/// The event of a long press.
pub open spec fn long_press_event(h: HeldView) -> InputEventDataView {
    InputEventDataView {
        key: Some(h.name),
        key_code: Some(code_of_key(h.key)),
        ..bare_event("longpress"@)
    }
}

/// The events of the keys that are long presses at `now`, in the order in
/// which the keys went down.
pub open spec fn long_presses(s: Seq<HeldView>, now: u64) -> Seq<InputEventDataView> {
    s.filter(|h: HeldView| is_long_press(h, now)).map_values(|h: HeldView| long_press_event(h))
}

/// The held keys that are no long presses at `now`.
pub open spec fn short_presses(s: Seq<HeldView>, now: u64) -> Seq<HeldView> {
    s.filter(|h: HeldView| !is_long_press(h, now))
}

/// The views of a list of events.
pub open spec fn event_views(list: Seq<InputEventData>) -> Seq<InputEventDataView> {
    list.map_values(|e: InputEventData| e@)
}

/// The keys that are held, each with the time at which it went down, for
/// telling long presses.
pub struct PressTracker {
    held: Vec<Held>,
}

impl View for PressTracker {
    type V = Seq<HeldView>;

    closed spec fn view(&self) -> Seq<HeldView> {
        self.held@.map_values(|h: Held| h@)
    }
}

impl PressTracker {
    /// A tracker with no key held.
    pub fn new() -> (tracker: Self)
        ensures
            tracker@ == Seq::<HeldView>::empty(),
    {
        let tracker = PressTracker { held: Vec::new() };
        assert(tracker@ =~= Seq::<HeldView>::empty());
        tracker
    }

    /// Records that `key` went down at `now`.
    pub fn press(&mut self, key: Key, name: String, now: u64)
        ensures
            final(self)@ == after_press(old(self)@, key, name@, now),
    {
        let mut i: usize = 0;
        while i < self.held.len()
            invariant
                i <= self.held@.len(),
                self@.len() == self.held@.len(),
                *self == *old(self),
                forall|j: int| 0 <= j < i ==> #[trigger] self@[j].key != key,
            decreases self.held@.len() - i,
        {
            if self.held[i].key == key {
                assert(self@[i as int].key == key);
                return ;
            }
            i = i + 1;
        }
        self.held.push(Held { key, name, since: now });
        assert(self@ =~= old(self)@.push(HeldView { key, name: name@, since: now }));
    }

    /// Records that `key` went up.
    pub fn release(&mut self, key: Key)
        ensures
            final(self)@ == after_release(old(self)@, key),
    {
        let ghost before = self@;
        let ghost keep = |h: HeldView| h.key != key;
        let mut kept: Vec<Held> = Vec::new();
        let mut i: usize = 0;
        while i < self.held.len()
            invariant
                i <= self.held@.len(),
                self@ == before,
                before.len() == self.held@.len(),
                keep == |h: HeldView| h.key != key,
                kept@.map_values(|h: Held| h@) == before.subrange(0, i as int).filter(keep),
            decreases self.held@.len() - i,
        {
            let h = &self.held[i];
            proof {
                reveal(Seq::filter);
                assert(before.subrange(0, i + 1).drop_last() =~= before.subrange(0, i as int));
                assert(before.subrange(0, i + 1).last() == h@);
            }
            if h.key != key {
                kept.push(Held { key: h.key, name: h.name.clone(), since: h.since });
                assert(kept@.map_values(|h: Held| h@) =~= before.subrange(0, i as int).filter(
                    keep,
                ).push(h@));
            }
            i = i + 1;
        }
        assert(before.subrange(0, i as int) =~= before);
        self.held = kept;
    }

    /// Looks at the held keys at `now`: gives a `longpress` event for each
    /// key held for longer than [`LONG_PRESS_MS`], and forgets those keys.
    pub fn tick(&mut self, now: u64) -> (events: Vec<InputEventData>)
        ensures
            event_views(events@) == long_presses(old(self)@, now),
            final(self)@ == short_presses(old(self)@, now),
    {
        let ghost before = self@;
        let ghost long = |h: HeldView| is_long_press(h, now);
        let ghost short = |h: HeldView| !is_long_press(h, now);
        let ghost to = |h: HeldView| long_press_event(h);
        let mut kept: Vec<Held> = Vec::new();
        let mut events: Vec<InputEventData> = Vec::new();
        let mut i: usize = 0;
        while i < self.held.len()
            invariant
                i <= self.held@.len(),
                self@ == before,
                before.len() == self.held@.len(),
                long == |h: HeldView| is_long_press(h, now),
                short == |h: HeldView| !is_long_press(h, now),
                to == |h: HeldView| long_press_event(h),
                kept@.map_values(|h: Held| h@) == before.subrange(0, i as int).filter(short),
                event_views(events@) == before.subrange(0, i as int).filter(long).map_values(to),
            decreases self.held@.len() - i,
        {
            let h = &self.held[i];
            proof {
                reveal(Seq::filter);
                assert(before.subrange(0, i + 1).drop_last() =~= before.subrange(0, i as int));
                assert(before.subrange(0, i + 1).last() == h@);
            }
            if now > h.since && now - h.since > LONG_PRESS_MS {
                let mut e = bare("longpress");
                e.key = Some(h.name.clone());
                e.key_code = Some(rdev_key_to_code(h.key));
                assert(e@ == long_press_event(h@));
                events.push(e);
                proof {
                    let f0 = before.subrange(0, i as int).filter(long);
                    let f1 = before.subrange(0, i + 1).filter(long);
                    assert(f1 == f0.push(h@));
                    assert(f1.map_values(to) =~= f0.map_values(to).push(to(h@)));
                    assert(event_views(events@) =~= f1.map_values(to));
                }
            } else {
                kept.push(Held { key: h.key, name: h.name.clone(), since: h.since });
                assert(kept@.map_values(|h: Held| h@) =~= before.subrange(0, i as int).filter(
                    short,
                ).push(h@));
            }
            i = i + 1;
        }
        assert(before.subrange(0, i as int) =~= before);
        self.held = kept;
        events
    }
}

} // verus!
