//! The coordinator as a state machine: what each event does to the state
//! and which actions it asks for, on mathematical values.
//!
//! The state holds the peer table and three slots: the outgoing request,
//! the pending inbound request and the session. The caller owns the
//! sockets, the hook and the clock; it hands in events and carries out the
//! actions in the order given.

use vstd::prelude::*;
use vstd::utf8::is_scalar;
use crate::control::{DeviceView, InputEventView, WsMessageView};
use crate::input_capture::{CaptureControlView, InputEventDataView};
use crate::input_simulator::{button_injection, key_injection, Injection};
use crate::peers::{first_with_ip, fresh, has_id, has_ip, index_of_id, observed, pruned, PeerView};
use crate::protocol::MessageView;
use crate::text::{decimal, first_code};

verus! {

/// A pending inbound request is answered with a refusal once it is older
/// than this, in milliseconds.
pub const PENDING_TTL_MS: u64 = 30_000;

/// How long a connection attempt may take to connect, in milliseconds.
pub const CONNECT_TIMEOUT_MS: u64 = 5_000;

/// How long an initiator waits for the answer to its request, in
/// milliseconds.
pub const HANDSHAKE_TIMEOUT_MS: u64 = 30_000;

/// How often the clock event is due, in milliseconds.
pub const SWEEP_INTERVAL_MS: u64 = 5_000;

/// How often the announce is sent, in milliseconds.
pub const ANNOUNCE_INTERVAL_MS: u64 = 1_000;

/// The port of the discovery datagrams and of the session listener.
pub const SESSION_PORT: u16 = 8080;

/// The port of the control bus.
pub const CONTROL_PORT: u16 = 4000;

/// Which end of a session this host is.
#[derive(Debug, Clone, Copy, PartialEq, Eq, Structural)]
pub enum Role {
    /// This host asked for the session.
    Controller,
    /// This host accepted the session, and replays what it receives.
    Controlled,
}

/// The two clocks that the caller reads for each event.
#[derive(Debug, Clone, Copy, PartialEq, Eq, Structural)]
pub struct Clock {
    /// Milliseconds on a clock that never goes back.
    pub now: u64,
    /// Milliseconds since the epoch, for the events shown to the user.
    pub stamp: u64,
}

/// The outgoing request: the device asked, and the handle of the attempt.
pub struct OutgoingView {
    pub target_id: Seq<char>,
    pub attempt: u64,
}

/// The pending inbound request: its connection, who asks, and since when.
pub struct PendingView {
    pub conn: u64,
    pub device: DeviceView,
    pub since: u64,
}

/// The session: its connection, the peer, and this host's end of it.
pub struct SessionView {
    pub conn: u64,
    pub peer_id: Seq<char>,
    pub role: Role,
}

/// The state of the coordinator.
pub struct CoordinatorView {
    pub local: DeviceView,
    pub peers: Seq<PeerView>,
    pub capturing: bool,
    pub outgoing: Option<OutgoingView>,
    pub pending: Option<PendingView>,
    pub session: Option<SessionView>,
}

/// How a connection attempt ended.
pub enum OutcomeView {
    /// The connection could not be made.
    ConnectFailed,
    /// No connection, or no answer, within the time allowed.
    TimedOut,
    /// The request could not be written or the answer could not be read.
    Broken,
    /// This frame came in answer.
    Reply(MessageView),
}

/// What can happen to the coordinator.
pub enum EventView {
    /// A discovery datagram was decoded; `from_ip` is its sender.
    Datagram { message: MessageView, from_ip: Seq<char> },
    /// A message arrived on the control bus. `fresh` is an unused handle,
    /// for the attempt that the message may start.
    Ui { command: WsMessageView, fresh: u64 },
    /// The first frame arrived on the accepted connection `conn`.
    InboundFirst { conn: u64, message: MessageView, remote_ip: Seq<char> },
    /// The accepted connection `conn` ended before it became a session.
    InboundClosed { conn: u64 },
    /// Time has passed.
    Tick,
    /// The attempt `attempt` is connected.
    Connected { attempt: u64 },
    /// The attempt `attempt` is over.
    AttemptEnded { attempt: u64, outcome: OutcomeView },
    /// A frame arrived on the session's connection.
    PeerMessage { conn: u64, message: MessageView },
    /// Reading or writing the connection `conn` failed.
    LinkFailed { conn: u64 },
    /// The hook reports.
    Captured { control: CaptureControlView },
    /// The hook could not be installed, or it has ended.
    CaptureEnded,
}

/// What the coordinator asks its caller to do.
pub enum ActionView {
    /// Put a message on the control bus.
    Notify(WsMessageView),
    /// Start connecting to `ip`, under the handle `attempt`: the
    /// connection may take `connect_ms` milliseconds to be made, and the
    /// answer to the request `answer_ms` milliseconds to come.
    Connect { attempt: u64, ip: Seq<char>, port: u16, connect_ms: u64, answer_ms: u64 },
    /// Write one frame on the connection `conn`.
    Send { conn: u64, message: MessageView },
    /// Make the connection `conn` the session's: start its reader and
    /// its writer.
    Open { conn: u64 },
    /// Let go of the connection or the attempt `conn`.
    Close { conn: u64 },
    /// Inject into the host.
    Inject(Injection),
    /// Install the input hook.
    StartCapture,
    /// Stop the input hook.
    StopCapture,
}

/// The refusal sent to the connection `conn`.
pub open spec fn refusal(conn: u64) -> ActionView {
    ActionView::Send { conn, message: MessageView::ConnectResponse { success: false } }
}

/// Whether the slots of `s` agree with each other, and the peer table with
/// the local device: a session leaves no request of either kind, capture
/// runs only in a session, no peer occurs twice and none is this host.
pub open spec fn consistent(s: CoordinatorView) -> bool {
    &&& s.session is Some ==> s.outgoing is None && s.pending is None
    &&& s.capturing ==> s.session is Some
    &&& crate::peers::distinct_ids(s.peers)
    &&& !has_id(s.peers, s.local.id)
}

/// The state at start: nothing known, nothing going on.
pub open spec fn initial(local: DeviceView) -> CoordinatorView {
    CoordinatorView {
        local,
        peers: Seq::empty(),
        capturing: false,
        outgoing: None,
        pending: None,
        session: None,
    }
}

/// The value of `v` as a wire delta: `v` where it fits, else the nearest
/// bound.
pub open spec fn clamp32(v: i64) -> i32 {
    if v < i32::MIN {
        i32::MIN
    } else if v > i32::MAX {
        i32::MAX
    } else {
        v as i32
    }
}

/// The motion message of a pair of deltas. None for a pair that is
/// incomplete or zero: a motion by nothing is never sent.
pub open spec fn motion_message(dx: Option<i64>, dy: Option<i64>) -> Option<MessageView> {
    match (dx, dy) {
        (Some(dx), Some(dy)) => if clamp32(dx) != 0 || clamp32(dy) != 0 {
            Some(MessageView::MouseMove { x: clamp32(dx), y: clamp32(dy) })
        } else {
            None
        },
        _ => None,
    }
}

/// The wire code of a button name: `button1` is 1, `button2` is 2, and
/// every other name, or none, is 0.
pub open spec fn button_code(key: Option<Seq<char>>) -> u8 {
    if key == Some("button1"@) {
        1
    } else if key == Some("button2"@) {
        2
    } else {
        0
    }
}

/// The wire message of an input event that the user interface sends.
pub open spec fn wire_of_ui(e: InputEventView) -> Option<MessageView> {
    if e.event_type == "mousemove"@ {
        motion_message(e.dx, e.dy)
    } else if e.event_type == "mousedown"@ {
        Some(MessageView::MouseClick { button: button_code(e.key), state: true })
    } else if e.event_type == "mouseup"@ {
        Some(MessageView::MouseClick { button: button_code(e.key), state: false })
    } else if e.event_type == "keydown"@ || e.event_type == "keyup"@ {
        match e.key {
            Some(k) => Some(
                MessageView::KeyPress { key: first_code(k), state: e.event_type == "keydown"@ },
            ),
            None => None,
        }
    } else {
        None
    }
}

/// The code of a key that is known by its name only: the fourth character
/// of a four-byte name that starts with `Key` or `Num`, the code of five
/// named keys, and 0 for every other name.
pub open spec fn code_of_name(k: Seq<char>) -> u32 {
    if k.len() == 4 && (k[3] as u32) < 128 && (k.subrange(0, 3) == seq!['K', 'e', 'y']
        || k.subrange(0, 3) == seq!['N', 'u', 'm']) {
        k[3] as u32
    } else if k == "Return"@ {
        13
    } else if k == "Space"@ {
        32
    } else if k == "Backspace"@ {
        8
    } else if k == "Tab"@ {
        9
    } else if k == "Escape"@ {
        27
    } else {
        0
    }
}

/// The wire code of a captured key event: its code where it has one, else
/// the code of its name; 0 where neither gives one.
pub open spec fn captured_code(e: InputEventDataView) -> u32 {
    match e.key_code {
        Some(c) => c,
        None => match e.key {
            Some(k) => code_of_name(k),
            None => 0,
        },
    }
}

/// The wire message of a captured input event.
pub open spec fn wire_of_capture(e: InputEventDataView) -> Option<MessageView> {
    if e.event_type == "mousemove"@ {
        motion_message(e.dx, e.dy)
    } else if e.event_type == "mousedown"@ || e.event_type == "mouseup"@ {
        match e.key {
            Some(k) => Some(
                MessageView::MouseClick {
                    button: button_code(e.key),
                    state: e.event_type == "mousedown"@,
                },
            ),
            None => None,
        }
    } else if e.event_type == "keydown"@ || e.event_type == "keyup"@ {
        if captured_code(e) != 0 {
            Some(
                MessageView::KeyPress { key: captured_code(e), state: e.event_type == "keydown"@ },
            )
        } else {
            None
        }
    } else {
        None
    }
}

/// An input event with a type, a key and a time, and nothing else.
pub open spec fn key_event(event_type: Seq<char>, key: Seq<char>, stamp: u64) -> InputEventView {
    InputEventView {
        event_type,
        x: None,
        y: None,
        dx: None,
        dy: None,
        key: Some(key),
        timestamp: stamp,
    }
}

/// What the user interface is shown of a received button change.
pub open spec fn click_echo(button: u8, state: bool, stamp: u64) -> InputEventView {
    key_event(
        if state {
            "mousedown"@
        } else {
            "mouseup"@
        },
        "button"@ + decimal(button),
        stamp,
    )
}

/// The character that a key code is shown as: the character with that
/// scalar value, or a question mark where there is none.
pub open spec fn shown_char(key: u32) -> char {
    if is_scalar(key) {
        key as char
    } else {
        '?'
    }
}

/// What the user interface is shown of a received key change.
pub open spec fn key_echo(key: u32, state: bool, stamp: u64) -> InputEventView {
    key_event(
        if state {
            "keydown"@
        } else {
            "keyup"@
        },
        seq![shown_char(key)],
        stamp,
    )
}

/// What the user interface is shown of a captured event.
pub open spec fn local_echo(e: InputEventDataView, stamp: u64) -> InputEventView {
    InputEventView {
        event_type: e.event_type,
        x: e.x,
        y: e.y,
        dx: e.dx,
        dy: e.dy,
        key: e.key,
        timestamp: stamp,
    }
}

/// The notifications that list a peer table.
pub open spec fn found_all(peers: Seq<PeerView>) -> Seq<ActionView> {
    peers.map_values(|p: PeerView| ActionView::Notify(WsMessageView::DeviceFound { device: p.device }))
}

/// The actions that end the pending inbound request, if there is one: a
/// refusal, the end of its connection, and the word to the user interface
/// that the request is gone.
pub open spec fn dismiss_pending(pending: Option<PendingView>) -> Seq<ActionView> {
    match pending {
        Some(p) => seq![
            refusal(p.conn),
            ActionView::Close { conn: p.conn },
            ActionView::Notify(
                WsMessageView::ConnectionRequestCancelled { device_id: p.device.id },
            ),
        ],
        None => seq![],
    }
}

/// The actions that end the outgoing request, if there is one.
pub open spec fn drop_outgoing(outgoing: Option<OutgoingView>) -> Seq<ActionView> {
    match outgoing {
        Some(o) => seq![ActionView::Close { conn: o.attempt }],
        None => seq![],
    }
}

/// The action that stops capture, if it runs.
pub open spec fn halt_capture(capturing: bool) -> Seq<ActionView> {
    if capturing {
        seq![ActionView::StopCapture]
    } else {
        seq![]
    }
}

/// The end of the session, if there is one: capture stops, the peer is
/// told where `tell_peer` asks for it, the connection ends, and the user
/// interface hears of it once.
pub open spec fn teardown(s: CoordinatorView, tell_peer: bool) -> (CoordinatorView, Seq<ActionView>) {
    match s.session {
        Some(session) => (
            CoordinatorView { capturing: false, session: None, ..s },
            halt_capture(s.capturing) + (if tell_peer {
                seq![ActionView::Send { conn: session.conn, message: MessageView::Disconnect }]
            } else {
                seq![]
            }) + seq![
                ActionView::Close { conn: session.conn },
                ActionView::Notify(WsMessageView::Disconnected),
            ],
        ),
        None => (s, seq![]),
    }
}

/// A failure of the request for `device_id`, as the user interface hears
/// of it.
pub open spec fn failed(device_id: Seq<char>, reason: Seq<char>) -> ActionView {
    ActionView::Notify(WsMessageView::ConnectionFailed { device_id, reason })
}

/// A discovery datagram: an announce of another device refreshes the peer
/// table, and a device that is new to it is shown to the user interface.
pub open spec fn on_datagram(s: CoordinatorView, message: MessageView, from_ip: Seq<char>, now: u64) -> (
    CoordinatorView,
    Seq<ActionView>,
) {
    match message {
        MessageView::Discovery { id, name, port } => if id == s.local.id {
            (s, seq![])
        } else {
            let device = DeviceView { id, name, ip: from_ip, device_type: "DESKTOP"@ };
            (
                CoordinatorView { peers: observed(s.peers, device, now), ..s },
                if has_id(s.peers, id) {
                    seq![]
                } else {
                    seq![ActionView::Notify(WsMessageView::DeviceFound { device })]
                },
            )
        },
        _ => (s, seq![]),
    }
}

/// The user asks to connect to `target`.
pub open spec fn on_request(s: CoordinatorView, target: Seq<char>, fresh: u64) -> (
    CoordinatorView,
    Seq<ActionView>,
) {
    if s.session is Some {
        (s, seq![failed(target, "busy"@)])
    } else if !has_id(s.peers, target) {
        (s, seq![failed(target, "not-found"@)])
    } else {
        (
            CoordinatorView {
                outgoing: Some(OutgoingView { target_id: target, attempt: fresh }),
                ..s
            },
            drop_outgoing(s.outgoing) + seq![
                ActionView::Connect {
                    attempt: fresh,
                    ip: s.peers[index_of_id(s.peers, target)].device.ip,
                    port: SESSION_PORT,
                    connect_ms: CONNECT_TIMEOUT_MS,
                    answer_ms: HANDSHAKE_TIMEOUT_MS,
                },
            ],
        )
    }
}

/// The user accepts the request of `target`.
pub open spec fn on_accept(s: CoordinatorView, target: Seq<char>) -> (
    CoordinatorView,
    Seq<ActionView>,
) {
    match s.pending {
        Some(p) => if p.device.id == target {
            (
                CoordinatorView {
                    outgoing: None,
                    pending: None,
                    session: Some(
                        SessionView { conn: p.conn, peer_id: p.device.id, role: Role::Controlled },
                    ),
                    ..s
                },
                drop_outgoing(s.outgoing) + seq![
                    ActionView::Send {
                        conn: p.conn,
                        message: MessageView::ConnectResponse { success: true },
                    },
                    ActionView::Open { conn: p.conn },
                    ActionView::Notify(
                        WsMessageView::ConnectionEstablished { device_id: p.device.id },
                    ),
                ],
            )
        } else {
            (s, seq![])
        },
        None => (s, seq![]),
    }
}

/// The user rejects the request of `target`.
pub open spec fn on_reject(s: CoordinatorView, target: Seq<char>) -> (
    CoordinatorView,
    Seq<ActionView>,
) {
    match s.pending {
        Some(p) => if p.device.id == target {
            (
                CoordinatorView { pending: None, ..s },
                seq![refusal(p.conn), ActionView::Close { conn: p.conn }],
            )
        } else {
            (s, seq![])
        },
        None => (s, seq![]),
    }
}

/// A message of the control bus. The messages that go to the user
/// interface pass by on the same bus and are not for the coordinator.
pub open spec fn on_ui(s: CoordinatorView, message: WsMessageView, fresh: u64, clock: Clock) -> (
    CoordinatorView,
    Seq<ActionView>,
) {
    match message {
        WsMessageView::GetLocalInfo => (
            s,
            seq![ActionView::Notify(WsMessageView::LocalInfo { device: s.local })] + (
            match s.pending {
                Some(p) => seq![
                    ActionView::Notify(WsMessageView::ConnectionRequest { device: p.device }),
                ],
                None => seq![],
            }),
        ),
        WsMessageView::StartDiscovery => (
            CoordinatorView { peers: pruned(s.peers, clock.now), ..s },
            found_all(pruned(s.peers, clock.now)),
        ),
        WsMessageView::StartCapture => if s.session is Some && !s.capturing {
            (CoordinatorView { capturing: true, ..s }, seq![ActionView::StartCapture])
        } else {
            (s, seq![])
        },
        WsMessageView::StopCapture => (
            CoordinatorView { capturing: false, ..s },
            halt_capture(s.capturing),
        ),
        WsMessageView::RequestConnection { target_device_id } => on_request(
            s,
            target_device_id,
            fresh,
        ),
        WsMessageView::CancelConnection => (
            CoordinatorView { outgoing: None, ..s },
            drop_outgoing(s.outgoing),
        ),
        WsMessageView::AcceptConnection { target_device_id } => on_accept(s, target_device_id),
        WsMessageView::RejectConnection { target_device_id } => on_reject(s, target_device_id),
        WsMessageView::Disconnect => teardown(s, true),
        WsMessageView::SendInput { event } => (
            s,
            match (s.session, wire_of_ui(event)) {
                (Some(session), Some(message)) => seq![
                    ActionView::Send { conn: session.conn, message },
                ],
                _ => seq![],
            },
        ),
        _ => (s, seq![]),
    }
}

/// The first frame on an accepted connection. Anything but a request ends
/// the connection. A request is refused while a session runs and when its
/// sender is no known peer; otherwise it becomes the pending request, in
/// place of the one before it, and is shown to the user interface.
pub open spec fn on_inbound_first(
    s: CoordinatorView,
    conn: u64,
    message: MessageView,
    remote_ip: Seq<char>,
    now: u64,
) -> (CoordinatorView, Seq<ActionView>) {
    if !(message is ConnectRequest) {
        (s, seq![ActionView::Close { conn }])
    } else if s.session is Some || !has_ip(s.peers, remote_ip) {
        (s, seq![refusal(conn), ActionView::Close { conn }])
    } else {
        let device = s.peers[choose|i: int| first_with_ip(s.peers, remote_ip, i)].device;
        (
            CoordinatorView { pending: Some(PendingView { conn, device, since: now }), ..s },
            dismiss_pending(s.pending) + seq![
                ActionView::Notify(WsMessageView::ConnectionRequest { device }),
            ],
        )
    }
}

/// An accepted connection ended. Where it held the pending request, the
/// request is gone.
pub open spec fn on_inbound_closed(s: CoordinatorView, conn: u64) -> (
    CoordinatorView,
    Seq<ActionView>,
) {
    match s.pending {
        Some(p) => if p.conn == conn {
            (CoordinatorView { pending: None, ..s }, dismiss_pending(s.pending))
        } else {
            (s, seq![ActionView::Close { conn }])
        },
        None => (s, seq![ActionView::Close { conn }]),
    }
}

/// Whether the pending request `p` is too old at `now`.
pub open spec fn expired(p: PendingView, now: u64) -> bool {
    now - p.since > PENDING_TTL_MS
}

/// Time has passed: a pending request that is too old is refused.
pub open spec fn on_tick(s: CoordinatorView, now: u64) -> (CoordinatorView, Seq<ActionView>) {
    match s.pending {
        Some(p) => if expired(p, now) {
            (
                CoordinatorView { pending: None, ..s },
                seq![refusal(p.conn), ActionView::Close { conn: p.conn }],
            )
        } else {
            (s, seq![])
        },
        None => (s, seq![]),
    }
}

/// Whether `attempt` is the attempt of the outgoing request.
pub open spec fn is_current(s: CoordinatorView, attempt: u64) -> bool {
    s.outgoing matches Some(o) && o.attempt == attempt
}

/// An attempt is connected: the current one sends its request, any other
/// is let go.
pub open spec fn on_connected(s: CoordinatorView, attempt: u64) -> (
    CoordinatorView,
    Seq<ActionView>,
) {
    if is_current(s, attempt) {
        (s, seq![ActionView::Send { conn: attempt, message: MessageView::ConnectRequest }])
    } else {
        (s, seq![ActionView::Close { conn: attempt }])
    }
}

/// Why an attempt that did not lead to a session failed.
pub open spec fn failure_reason(outcome: OutcomeView) -> Seq<char> {
    match outcome {
        OutcomeView::ConnectFailed => "connect-failed"@,
        OutcomeView::TimedOut => "timeout"@,
        OutcomeView::Broken => "handshake-error"@,
        OutcomeView::Reply(MessageView::ConnectResponse { success }) => "rejected"@,
        OutcomeView::Reply(_) => "handshake-error"@,
    }
}

/// Whether the outcome is the peer's consent.
pub open spec fn is_consent(outcome: OutcomeView) -> bool {
    outcome == OutcomeView::Reply(MessageView::ConnectResponse { success: true })
}

/// An attempt is over. The current one ends the outgoing request: with
/// the peer's consent its connection becomes the session, and a pending
/// inbound request gives way; otherwise the user interface hears why it
/// failed. Any other attempt is let go.
pub open spec fn on_attempt_ended(s: CoordinatorView, attempt: u64, outcome: OutcomeView) -> (
    CoordinatorView,
    Seq<ActionView>,
) {
    match s.outgoing {
        Some(o) => if o.attempt != attempt {
            (s, seq![ActionView::Close { conn: attempt }])
        } else if is_consent(outcome) {
            (
                CoordinatorView {
                    outgoing: None,
                    pending: None,
                    session: Some(
                        SessionView { conn: attempt, peer_id: o.target_id, role: Role::Controller },
                    ),
                    ..s
                },
                dismiss_pending(s.pending) + seq![
                    ActionView::Open { conn: attempt },
                    ActionView::Notify(
                        WsMessageView::ConnectionEstablished { device_id: o.target_id },
                    ),
                ],
            )
        } else {
            (
                CoordinatorView { outgoing: None, ..s },
                seq![
                    ActionView::Close { conn: attempt },
                    failed(o.target_id, failure_reason(outcome)),
                ],
            )
        },
        None => (s, seq![ActionView::Close { conn: attempt }]),
    }
}

/// What the controlled host does with a frame of its session: motion is
/// injected unless it is zero, and is not shown; a button or key change
/// is injected and shown, and a key code that names no key is shown only.
pub open spec fn replayed(message: MessageView, stamp: u64) -> Seq<ActionView> {
    match message {
        MessageView::MouseMove { x, y } => if x != 0 || y != 0 {
            seq![ActionView::Inject(Injection::MoveRelative { dx: x, dy: y })]
        } else {
            seq![]
        },
        MessageView::MouseClick { button, state } => seq![
            ActionView::Inject(button_injection(button, state)),
            ActionView::Notify(
                WsMessageView::RemoteInput { event: click_echo(button, state, stamp) },
            ),
        ],
        MessageView::KeyPress { key, state } => (match key_injection(key, state) {
            Some(injection) => seq![ActionView::Inject(injection)],
            None => seq![],
        }) + seq![
            ActionView::Notify(WsMessageView::RemoteInput { event: key_echo(key, state, stamp) }),
        ],
        _ => seq![],
    }
}

/// A frame on the session's connection.
pub open spec fn on_peer_message(s: CoordinatorView, conn: u64, message: MessageView, stamp: u64) -> (
    CoordinatorView,
    Seq<ActionView>,
) {
    match s.session {
        Some(session) => if session.conn != conn {
            (s, seq![])
        } else if message is Disconnect {
            teardown(s, false)
        } else if session.role == Role::Controlled {
            (s, replayed(message, stamp))
        } else {
            (s, seq![])
        },
        None => (s, seq![]),
    }
}

/// Reading or writing a connection failed: the session's connection ends
/// the session, and the connection of the current attempt ends the attempt.
pub open spec fn on_link_failed(s: CoordinatorView, conn: u64) -> (
    CoordinatorView,
    Seq<ActionView>,
) {
    match s.session {
        Some(session) => if session.conn == conn {
            teardown(s, false)
        } else {
            (s, seq![])
        },
        None => if is_current(s, conn) {
            on_attempt_ended(s, conn, OutcomeView::Broken)
        } else {
            (s, seq![])
        },
    }
}

/// What a captured event leads to while capture runs: it is shown to the
/// user interface unless it is a motion, and it is sent to the peer.
pub open spec fn routed(s: CoordinatorView, e: InputEventDataView, stamp: u64) -> Seq<ActionView> {
    (if e.event_type != "mousemove"@ {
        seq![ActionView::Notify(WsMessageView::LocalInput { event: local_echo(e, stamp) })]
    } else {
        seq![]
    }) + (match (s.session, wire_of_capture(e)) {
        (Some(session), Some(message)) => seq![ActionView::Send { conn: session.conn, message }],
        _ => seq![],
    })
}

/// The hook reports: an event is routed while capture runs, and the
/// escape combination stops capture and ends the session.
pub open spec fn on_captured(s: CoordinatorView, control: CaptureControlView, stamp: u64) -> (
    CoordinatorView,
    Seq<ActionView>,
) {
    match control {
        CaptureControlView::InputEvent(e) => if s.capturing {
            (s, routed(s, e, stamp))
        } else {
            (s, seq![])
        },
        CaptureControlView::ExitRequested => match s.session {
            Some(_) => teardown(s, true),
            None => (CoordinatorView { capturing: false, ..s }, halt_capture(s.capturing)),
        },
    }
}

/// What the event `e` at the time `clock` does in the state `s`: the next
/// state, and the actions in the order in which they are due.
pub open spec fn step(s: CoordinatorView, e: EventView, clock: Clock) -> (
    CoordinatorView,
    Seq<ActionView>,
) {
    match e {
        EventView::Datagram { message, from_ip } => on_datagram(s, message, from_ip, clock.now),
        EventView::Ui { command, fresh } => on_ui(s, command, fresh, clock),
        EventView::InboundFirst { conn, message, remote_ip } => on_inbound_first(
            s,
            conn,
            message,
            remote_ip,
            clock.now,
        ),
        EventView::InboundClosed { conn } => on_inbound_closed(s, conn),
        EventView::Tick => on_tick(s, clock.now),
        EventView::Connected { attempt } => on_connected(s, attempt),
        EventView::AttemptEnded { attempt, outcome } => on_attempt_ended(s, attempt, outcome),
        EventView::PeerMessage { conn, message } => on_peer_message(s, conn, message, clock.stamp),
        EventView::LinkFailed { conn } => on_link_failed(s, conn),
        EventView::Captured { control } => on_captured(s, control, clock.stamp),
        EventView::CaptureEnded => (
            CoordinatorView { capturing: false, ..s },
            halt_capture(s.capturing),
        ),
    }
}

} // verus!
