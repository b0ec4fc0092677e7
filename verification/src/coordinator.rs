//! The coordinator: the peer table and the three slots, moved from event
//! to event as the state machine says.

use vstd::prelude::*;
use crate::control::{DeviceInfo, WsMessage};
use crate::events::{views, Action, AttemptOutcome, Event};
use crate::input_capture::CaptureControl;
use crate::input_simulator::InputSimulator;
use crate::machine::{
    consistent, dismiss_pending, drop_outgoing, found_all, halt_capture, initial, on_accept,
    on_attempt_ended, on_captured, on_connected, on_datagram, on_inbound_closed, on_inbound_first,
    on_link_failed, on_peer_message, on_reject, on_request, on_tick, on_ui, refusal, replayed,
    routed, step, teardown, ActionView, Clock, CoordinatorView, OutgoingView, PendingView, Role,
    SessionView, CONNECT_TIMEOUT_MS, HANDSHAKE_TIMEOUT_MS, PENDING_TTL_MS, SESSION_PORT,
};
use crate::peers::{
    first_with_ip, has_fresh_id, has_id, lemma_observed, lemma_pruned_ids, PeerTable,
};
use crate::protocol::Message;
use crate::routing::{echo_of_capture, echo_of_click, echo_of_key, wire_from_capture, wire_from_ui};
use crate::text::same_text;

verus! {

struct Outgoing {
    target_id: String,
    attempt: u64,
}

struct Pending {
    conn: u64,
    device: DeviceInfo,
    since: u64,
}

struct Session {
    conn: u64,
    peer_id: String,
    role: Role,
}

impl View for Outgoing {
    type V = OutgoingView;

    closed spec fn view(&self) -> OutgoingView {
        OutgoingView { target_id: self.target_id@, attempt: self.attempt }
    }
}

impl View for Pending {
    type V = PendingView;

    closed spec fn view(&self) -> PendingView {
        PendingView { conn: self.conn, device: self.device@, since: self.since }
    }
}

impl View for Session {
    type V = SessionView;

    closed spec fn view(&self) -> SessionView {
        SessionView { conn: self.conn, peer_id: self.peer_id@, role: self.role }
    }
}

spec fn outgoing_view(o: Option<Outgoing>) -> Option<OutgoingView> {
    match o {
        Some(o) => Some(o@),
        None => None,
    }
}

spec fn pending_view(p: Option<Pending>) -> Option<PendingView> {
    match p {
        Some(p) => Some(p@),
        None => None,
    }
}

spec fn session_view(s: Option<Session>) -> Option<SessionView> {
    match s {
        Some(s) => Some(s@),
        None => None,
    }
}

/// The coordinator of one host.
pub struct Coordinator {
    local: DeviceInfo,
    peers: PeerTable,
    capturing: bool,
    outgoing: Option<Outgoing>,
    pending: Option<Pending>,
    session: Option<Session>,
}

impl View for Coordinator {
    type V = CoordinatorView;

    closed spec fn view(&self) -> CoordinatorView {
        CoordinatorView {
            local: self.local@,
            peers: self.peers@,
            capturing: self.capturing,
            outgoing: outgoing_view(self.outgoing),
            pending: pending_view(self.pending),
            session: session_view(self.session),
        }
    }
}

fn notify(actions: &mut Vec<Action>, message: WsMessage)
    ensures
        views(final(actions)@) == views(old(actions)@).push(ActionView::Notify(message@)),
{
    actions.push(Action::Notify(message));
    assert(views(actions@) =~= views(old(actions)@).push(ActionView::Notify(message@)));
}

fn send(actions: &mut Vec<Action>, conn: u64, message: Message)
    ensures
        views(final(actions)@) == views(old(actions)@).push(
            ActionView::Send { conn, message: message@ },
        ),
{
    actions.push(Action::Send { conn, message });
    assert(views(actions@) =~= views(old(actions)@).push(
        ActionView::Send { conn, message: message@ },
    ));
}

fn close(actions: &mut Vec<Action>, conn: u64)
    ensures
        views(final(actions)@) == views(old(actions)@).push(ActionView::Close { conn }),
{
    actions.push(Action::Close { conn });
    assert(views(actions@) =~= views(old(actions)@).push(ActionView::Close { conn }));
}

fn plain(actions: &mut Vec<Action>, action: Action)
    ensures
        views(final(actions)@) == views(old(actions)@).push(action@),
{
    actions.push(action);
    assert(views(actions@) =~= views(old(actions)@).push(action@));
}

fn no_actions() -> (actions: Vec<Action>)
    ensures
        views(actions@) == Seq::<ActionView>::empty(),
{
    let actions: Vec<Action> = Vec::new();
    assert(views(actions@) =~= Seq::<ActionView>::empty());
    actions
}

fn refuse(actions: &mut Vec<Action>, conn: u64)
    ensures
        views(final(actions)@) == views(old(actions)@) + seq![
            refusal(conn),
            ActionView::Close { conn },
        ],
{
    send(actions, conn, Message::ConnectResponse { success: false });
    close(actions, conn);
    assert(views(actions@) =~= views(old(actions)@) + seq![
        refusal(conn),
        ActionView::Close { conn },
    ]);
}

fn dismiss(actions: &mut Vec<Action>, pending: Option<Pending>)
    ensures
        views(final(actions)@) == views(old(actions)@) + dismiss_pending(pending_view(pending)),
{
    match pending {
        Some(p) => {
            refuse(actions, p.conn);
            notify(actions, WsMessage::ConnectionRequestCancelled { device_id: p.device.id });
        },
        None => {},
    }
    assert(views(actions@) =~= views(old(actions)@) + dismiss_pending(pending_view(pending)));
}

fn let_go(actions: &mut Vec<Action>, outgoing: Option<Outgoing>)
    ensures
        views(final(actions)@) == views(old(actions)@) + drop_outgoing(outgoing_view(outgoing)),
{
    match outgoing {
        Some(o) => {
            close(actions, o.attempt);
        },
        None => {},
    }
    assert(views(actions@) =~= views(old(actions)@) + drop_outgoing(outgoing_view(outgoing)));
}

fn halt(actions: &mut Vec<Action>, capturing: bool)
    ensures
        views(final(actions)@) == views(old(actions)@) + halt_capture(capturing),
{
    if capturing {
        plain(actions, Action::StopCapture);
    }
    assert(views(actions@) =~= views(old(actions)@) + halt_capture(capturing));
}

fn replay(message: Message, stamp: u64) -> (actions: Vec<Action>)
    ensures
        views(actions@) == replayed(message@, stamp),
{
    let simulator = InputSimulator::new();
    let mut actions = no_actions();
    match message {
        Message::MouseMove { x, y } => {
            if x != 0 || y != 0 {
                plain(&mut actions, Action::Inject(simulator.mouse_move(x, y)));
            }
        },
        Message::MouseClick { button, state } => {
            plain(&mut actions, Action::Inject(simulator.mouse_click(button, state)));
            notify(
                &mut actions,
                WsMessage::RemoteInput { event: echo_of_click(button, state, stamp) },
            );
        },
        Message::KeyPress { key, state } => {
            match simulator.key_press(key, state) {
                Some(injection) => {
                    plain(&mut actions, Action::Inject(injection));
                },
                None => {},
            }
            notify(&mut actions, WsMessage::RemoteInput { event: echo_of_key(key, state, stamp) });
        },
        _ => {},
    }
    assert(views(actions@) =~= replayed(message@, stamp));
    actions
}

impl Coordinator {
    #[verifier::type_invariant]
    spec fn inv(self) -> bool {
        consistent(self@)
    }

    /// The coordinator of the device `local`, at start.
    pub fn new(local: DeviceInfo) -> (c: Self)
        ensures
            c@ == initial(local@),
    {
        Coordinator {
            local,
            peers: PeerTable::new(),
            capturing: false,
            outgoing: None,
            pending: None,
            session: None,
        }
    }

    /// Whether capture runs.
    pub fn is_capturing(&self) -> (b: bool)
        ensures
            b == self@.capturing,
            consistent(self@),
    {
        proof {
            use_type_invariant(self);
        }
        self.capturing
    }

    /// Whether a session runs.
    pub fn in_session(&self) -> (b: bool)
        ensures
            b == self@.session is Some,
            consistent(self@),
    {
        proof {
            use_type_invariant(self);
        }
        self.session.is_some()
    }

    fn end_session(self, tell_peer: bool) -> (out: (Self, Vec<Action>))
        ensures
            (out.0@, views(out.1@)) == teardown(self@, tell_peer),
    {
        proof {
            use_type_invariant(&self);
        }
        let Coordinator { local, peers, capturing, outgoing, pending, session } = self;
        let mut actions = no_actions();
        match session {
            Some(s) => {
                halt(&mut actions, capturing);
                if tell_peer {
                    send(&mut actions, s.conn, Message::Disconnect);
                }
                close(&mut actions, s.conn);
                notify(&mut actions, WsMessage::Disconnected);
                let next = Coordinator {
                    local,
                    peers,
                    capturing: false,
                    outgoing,
                    pending,
                    session: None,
                };
                assert(views(actions@) =~= teardown(self@, tell_peer).1);
                (next, actions)
            },
            None => (
                Coordinator { local, peers, capturing, outgoing, pending, session: None },
                actions,
            ),
        }
    }

    fn datagram(self, message: Message, from_ip: String, now: u64) -> (out: (Self, Vec<Action>))
        ensures
            (out.0@, views(out.1@)) == on_datagram(self@, message@, from_ip@, now),
    {
        proof {
            use_type_invariant(&self);
        }
        let mut actions = no_actions();
        match message {
            Message::Discovery { id, name, port } => {
                if same_text(id.as_str(), self.local.id.as_str()) {
                    return (self, actions);
                }
                let Coordinator { local, mut peers, capturing, outgoing, pending, session } = self;
                let device = DeviceInfo { id, name, ip: from_ip, device_type: "DESKTOP".to_owned() };
                let shown = device.clone();
                let is_new = peers.observe(device, now);
                if is_new {
                    notify(&mut actions, WsMessage::DeviceFound { device: shown });
                }
                proof {
                    lemma_observed(self@.peers, shown@, now);
                }
                (Coordinator { local, peers, capturing, outgoing, pending, session }, actions)
            },
            _ => (self, actions),
        }
    }

    fn request(self, target: String, fresh: u64) -> (out: (Self, Vec<Action>))
        ensures
            (out.0@, views(out.1@)) == on_request(self@, target@, fresh),
    {
        proof {
            use_type_invariant(&self);
        }
        let mut actions = no_actions();
        if self.session.is_some() {
            notify(
                &mut actions,
                WsMessage::ConnectionFailed { device_id: target, reason: "busy".to_owned() },
            );
            return (self, actions);
        }
        match self.peers.find_by_id(target.as_str()) {
            None => {
                notify(
                    &mut actions,
                    WsMessage::ConnectionFailed {
                        device_id: target,
                        reason: "not-found".to_owned(),
                    },
                );
                (self, actions)
            },
            Some(device) => {
                let Coordinator { local, peers, capturing, outgoing, pending, session } = self;
                let_go(&mut actions, outgoing);
                plain(
                    &mut actions,
                    Action::Connect {
                        attempt: fresh,
                        ip: device.ip,
                        port: SESSION_PORT,
                        connect_ms: CONNECT_TIMEOUT_MS,
                        answer_ms: HANDSHAKE_TIMEOUT_MS,
                    },
                );
                (
                    Coordinator {
                        local,
                        peers,
                        capturing,
                        outgoing: Some(Outgoing { target_id: target, attempt: fresh }),
                        pending,
                        session,
                    },
                    actions,
                )
            },
        }
    }

    fn accept(self, target: String) -> (out: (Self, Vec<Action>))
        ensures
            (out.0@, views(out.1@)) == on_accept(self@, target@),
    {
        proof {
            use_type_invariant(&self);
        }
        let mut actions = no_actions();
        let matches = match &self.pending {
            Some(p) => same_text(p.device.id.as_str(), target.as_str()),
            None => false,
        };
        if !matches {
            return (self, actions);
        }
        let Coordinator { local, peers, capturing, outgoing, pending, session } = self;
        let p = pending.unwrap();
        let_go(&mut actions, outgoing);
        send(&mut actions, p.conn, Message::ConnectResponse { success: true });
        plain(&mut actions, Action::Open { conn: p.conn });
        notify(&mut actions, WsMessage::ConnectionEstablished { device_id: p.device.id.clone() });
        assert(views(actions@) =~= on_accept(self@, target@).1);
        (
            Coordinator {
                local,
                peers,
                capturing,
                outgoing: None,
                pending: None,
                session: Some(Session { conn: p.conn, peer_id: p.device.id, role: Role::Controlled }),
            },
            actions,
        )
    }

    fn reject(self, target: String) -> (out: (Self, Vec<Action>))
        ensures
            (out.0@, views(out.1@)) == on_reject(self@, target@),
    {
        proof {
            use_type_invariant(&self);
        }
        let mut actions = no_actions();
        let matches = match &self.pending {
            Some(p) => same_text(p.device.id.as_str(), target.as_str()),
            None => false,
        };
        if !matches {
            return (self, actions);
        }
        let Coordinator { local, peers, capturing, outgoing, pending, session } = self;
        let p = pending.unwrap();
        refuse(&mut actions, p.conn);
        (Coordinator { local, peers, capturing, outgoing, pending: None, session }, actions)
    }

    fn ui(self, message: WsMessage, fresh: u64, clock: Clock) -> (out: (Self, Vec<Action>))
        ensures
            (out.0@, views(out.1@)) == on_ui(self@, message@, fresh, clock),
    {
        proof {
            use_type_invariant(&self);
        }
        let mut actions = no_actions();
        match message {
            WsMessage::GetLocalInfo => {
                notify(&mut actions, WsMessage::LocalInfo { device: self.local.clone() });
                match &self.pending {
                    Some(p) => {
                        notify(
                            &mut actions,
                            WsMessage::ConnectionRequest { device: p.device.clone() },
                        );
                    },
                    None => {},
                }
                assert(views(actions@) =~= on_ui(self@, message@, fresh, clock).1);
                (self, actions)
            },
            WsMessage::StartDiscovery => {
                let Coordinator { local, mut peers, capturing, outgoing, pending, session } = self;
                peers.prune(clock.now);
                let devices = peers.devices();
                let mut i: usize = 0;
                while i < devices.len()
                    invariant
                        i <= devices@.len(),
                        devices@.len() == peers@.len(),
                        forall|j: int|
                            0 <= j < devices@.len() ==> #[trigger] devices@[j]@ == peers@[j].device,
                        views(actions@) == found_all(peers@.subrange(0, i as int)),
                    decreases devices@.len() - i,
                {
                    notify(&mut actions, WsMessage::DeviceFound { device: devices[i].clone() });
                    i = i + 1;
                    assert(views(actions@) =~= found_all(peers@.subrange(0, i as int)));
                }
                proof {
                    assert(peers@.subrange(0, i as int) =~= peers@);
                    lemma_pruned_ids(self@.peers, clock.now);
                    if has_fresh_id(self@.peers, self@.local.id, clock.now) {
                        let k = choose|k: int|
                            0 <= k < self@.peers.len() && #[trigger] self@.peers[k].device.id
                                == self@.local.id && crate::peers::fresh(self@.peers[k], clock.now);
                        assert(has_id(self@.peers, self@.local.id));
                    }
                }
                (Coordinator { local, peers, capturing, outgoing, pending, session }, actions)
            },
            WsMessage::StartCapture => {
                if self.session.is_some() && !self.capturing {
                    let Coordinator { local, peers, capturing, outgoing, pending, session } = self;
                    plain(&mut actions, Action::StartCapture);
                    (
                        Coordinator { local, peers, capturing: true, outgoing, pending, session },
                        actions,
                    )
                } else {
                    (self, actions)
                }
            },
            WsMessage::StopCapture => {
                let Coordinator { local, peers, capturing, outgoing, pending, session } = self;
                halt(&mut actions, capturing);
                (Coordinator { local, peers, capturing: false, outgoing, pending, session }, actions)
            },
            WsMessage::RequestConnection { target_device_id } => self.request(
                target_device_id,
                fresh,
            ),
            WsMessage::CancelConnection => {
                let Coordinator { local, peers, capturing, outgoing, pending, session } = self;
                let_go(&mut actions, outgoing);
                (Coordinator { local, peers, capturing, outgoing: None, pending, session }, actions)
            },
            WsMessage::AcceptConnection { target_device_id } => self.accept(target_device_id),
            WsMessage::RejectConnection { target_device_id } => self.reject(target_device_id),
            WsMessage::Disconnect => self.end_session(true),
            WsMessage::SendInput { event } => {
                match &self.session {
                    Some(s) => {
                        match wire_from_ui(&event) {
                            Some(m) => {
                                send(&mut actions, s.conn, m);
                            },
                            None => {},
                        }
                    },
                    None => {},
                }
                assert(views(actions@) =~= on_ui(self@, message@, fresh, clock).1);
                (self, actions)
            },
            _ => (self, actions),
        }
    }

    fn inbound_first(self, conn: u64, message: Message, remote_ip: String, now: u64) -> (out: (
        Self,
        Vec<Action>,
    ))
        ensures
            (out.0@, views(out.1@)) == on_inbound_first(self@, conn, message@, remote_ip@, now),
    {
        proof {
            use_type_invariant(&self);
        }
        let mut actions = no_actions();
        let is_request = match message {
            Message::ConnectRequest => true,
            _ => false,
        };
        if !is_request {
            close(&mut actions, conn);
            return (self, actions);
        }
        if self.session.is_some() {
            refuse(&mut actions, conn);
            return (self, actions);
        }
        match self.peers.find_by_ip(remote_ip.as_str()) {
            None => {
                refuse(&mut actions, conn);
                (self, actions)
            },
            Some(device) => {
                proof {
                    let i = choose|i: int| first_with_ip(self@.peers, remote_ip@, i);
                    let j = choose|j: int|
                        first_with_ip(self@.peers, remote_ip@, j) && device@
                            == self@.peers[j].device;
                    assert(i == j) by {
                        if i < j {
                            assert(self@.peers[i].device.ip != remote_ip@);
                        }
                        if j < i {
                            assert(self@.peers[j].device.ip != remote_ip@);
                        }
                    }
                }
                let Coordinator { local, peers, capturing, outgoing, pending, session } = self;
                dismiss(&mut actions, pending);
                notify(&mut actions, WsMessage::ConnectionRequest { device: device.clone() });
                (
                    Coordinator {
                        local,
                        peers,
                        capturing,
                        outgoing,
                        pending: Some(Pending { conn, device, since: now }),
                        session,
                    },
                    actions,
                )
            },
        }
    }

    fn inbound_closed(self, conn: u64) -> (out: (Self, Vec<Action>))
        ensures
            (out.0@, views(out.1@)) == on_inbound_closed(self@, conn),
    {
        proof {
            use_type_invariant(&self);
        }
        let mut actions = no_actions();
        let held = match &self.pending {
            Some(p) => p.conn == conn,
            None => false,
        };
        if !held {
            close(&mut actions, conn);
            return (self, actions);
        }
        let Coordinator { local, peers, capturing, outgoing, pending, session } = self;
        dismiss(&mut actions, pending);
        (Coordinator { local, peers, capturing, outgoing, pending: None, session }, actions)
    }

    fn tick(self, now: u64) -> (out: (Self, Vec<Action>))
        ensures
            (out.0@, views(out.1@)) == on_tick(self@, now),
    {
        proof {
            use_type_invariant(&self);
        }
        let mut actions = no_actions();
        let overdue = match &self.pending {
            Some(p) => now > p.since && now - p.since > PENDING_TTL_MS,
            None => false,
        };
        if !overdue {
            return (self, actions);
        }
        let Coordinator { local, peers, capturing, outgoing, pending, session } = self;
        let p = pending.unwrap();
        refuse(&mut actions, p.conn);
        (Coordinator { local, peers, capturing, outgoing, pending: None, session }, actions)
    }

    fn connected(self, attempt: u64) -> (out: (Self, Vec<Action>))
        ensures
            (out.0@, views(out.1@)) == on_connected(self@, attempt),
    {
        let mut actions = no_actions();
        let current = match &self.outgoing {
            Some(o) => o.attempt == attempt,
            None => false,
        };
        if current {
            send(&mut actions, attempt, Message::ConnectRequest);
        } else {
            close(&mut actions, attempt);
        }
        (self, actions)
    }

    fn attempt_ended(self, attempt: u64, outcome: AttemptOutcome) -> (out: (Self, Vec<Action>))
        ensures
            (out.0@, views(out.1@)) == on_attempt_ended(self@, attempt, outcome@),
    {
        proof {
            use_type_invariant(&self);
        }
        let mut actions = no_actions();
        let current = match &self.outgoing {
            Some(o) => o.attempt == attempt,
            None => false,
        };
        if !current {
            close(&mut actions, attempt);
            return (self, actions);
        }
        let Coordinator { local, peers, capturing, outgoing, pending, session } = self;
        let o = outgoing.unwrap();
        let reason = match outcome {
            AttemptOutcome::Reply(Message::ConnectResponse { success }) => {
                if success {
                    dismiss(&mut actions, pending);
                    plain(&mut actions, Action::Open { conn: attempt });
                    notify(
                        &mut actions,
                        WsMessage::ConnectionEstablished { device_id: o.target_id.clone() },
                    );
                    assert(views(actions@) =~= on_attempt_ended(self@, attempt, outcome@).1);
                    return (
                        Coordinator {
                            local,
                            peers,
                            capturing,
                            outgoing: None,
                            pending: None,
                            session: Some(
                                Session {
                                    conn: attempt,
                                    peer_id: o.target_id,
                                    role: Role::Controller,
                                },
                            ),
                        },
                        actions,
                    );
                }
                "rejected"
            },
            AttemptOutcome::Reply(_) => "handshake-error",
            AttemptOutcome::Broken => "handshake-error",
            AttemptOutcome::TimedOut => "timeout",
            AttemptOutcome::ConnectFailed => "connect-failed",
        };
        close(&mut actions, attempt);
        notify(
            &mut actions,
            WsMessage::ConnectionFailed { device_id: o.target_id, reason: reason.to_owned() },
        );
        assert(views(actions@) =~= on_attempt_ended(self@, attempt, outcome@).1);
        (Coordinator { local, peers, capturing, outgoing: None, pending, session }, actions)
    }

    fn peer_message(self, conn: u64, message: Message, stamp: u64) -> (out: (Self, Vec<Action>))
        ensures
            (out.0@, views(out.1@)) == on_peer_message(self@, conn, message@, stamp),
    {
        let role = match &self.session {
            Some(s) => if s.conn == conn {
                Some(s.role)
            } else {
                None
            },
            None => None,
        };
        match role {
            None => (self, no_actions()),
            Some(role) => {
                let leaves = match message {
                    Message::Disconnect => true,
                    _ => false,
                };
                if leaves {
                    self.end_session(false)
                } else if role == Role::Controlled {
                    (self, replay(message, stamp))
                } else {
                    (self, no_actions())
                }
            },
        }
    }

    fn link_failed(self, conn: u64) -> (out: (Self, Vec<Action>))
        ensures
            (out.0@, views(out.1@)) == on_link_failed(self@, conn),
    {
        match &self.session {
            Some(s) => {
                if s.conn == conn {
                    self.end_session(false)
                } else {
                    (self, no_actions())
                }
            },
            None => {
                let current = match &self.outgoing {
                    Some(o) => o.attempt == conn,
                    None => false,
                };
                if current {
                    self.attempt_ended(conn, AttemptOutcome::Broken)
                } else {
                    (self, no_actions())
                }
            },
        }
    }

    fn captured(self, control: CaptureControl, stamp: u64) -> (out: (Self, Vec<Action>))
        ensures
            (out.0@, views(out.1@)) == on_captured(self@, control@, stamp),
    {
        proof {
            use_type_invariant(&self);
        }
        let mut actions = no_actions();
        match control {
            CaptureControl::InputEvent(e) => {
                if !self.capturing {
                    return (self, actions);
                }
                if !same_text(e.event_type.as_str(), "mousemove") {
                    notify(&mut actions, WsMessage::LocalInput { event: echo_of_capture(&e, stamp) });
                }
                match &self.session {
                    Some(s) => {
                        match wire_from_capture(&e) {
                            Some(m) => {
                                send(&mut actions, s.conn, m);
                            },
                            None => {},
                        }
                    },
                    None => {},
                }
                assert(views(actions@) =~= routed(self@, e@, stamp));
                (self, actions)
            },
            CaptureControl::ExitRequested => {
                if self.session.is_some() {
                    self.end_session(true)
                } else {
                    let Coordinator { local, peers, capturing, outgoing, pending, session } = self;
                    halt(&mut actions, capturing);
                    (
                        Coordinator { local, peers, capturing: false, outgoing, pending, session },
                        actions,
                    )
                }
            },
        }
    }

    fn capture_ended(self) -> (out: (Self, Vec<Action>))
        ensures
            out.0@ == (CoordinatorView { capturing: false, ..self@ }),
            views(out.1@) == halt_capture(self@.capturing),
    {
        proof {
            use_type_invariant(&self);
        }
        let Coordinator { local, peers, capturing, outgoing, pending, session } = self;
        let mut actions = no_actions();
        halt(&mut actions, capturing);
        (Coordinator { local, peers, capturing: false, outgoing, pending, session }, actions)
    }

    /// Handles `event` at the time `clock`, and gives the state after it
    /// with the actions that are due, in their order.
    pub fn advance(self, event: Event, clock: Clock) -> (out: (Self, Vec<Action>))
        ensures
            (out.0@, views(out.1@)) == step(self@, event@, clock),
            consistent(self@),
            consistent(out.0@),
    {
        proof {
            use_type_invariant(&self);
        }
        let out = match event {
            Event::Datagram { message, from_ip } => self.datagram(message, from_ip, clock.now),
            Event::Ui { command, fresh } => self.ui(command, fresh, clock),
            Event::InboundFirst { conn, message, remote_ip } => self.inbound_first(
                conn,
                message,
                remote_ip,
                clock.now,
            ),
            Event::InboundClosed { conn } => self.inbound_closed(conn),
            Event::Tick => self.tick(clock.now),
            Event::Connected { attempt } => self.connected(attempt),
            Event::AttemptEnded { attempt, outcome } => self.attempt_ended(attempt, outcome),
            Event::PeerMessage { conn, message } => self.peer_message(conn, message, clock.stamp),
            Event::LinkFailed { conn } => self.link_failed(conn),
            Event::Captured { control } => self.captured(control, clock.stamp),
            Event::CaptureEnded => self.capture_ended(),
        };
        proof {
            use_type_invariant(&out.0);
        }
        out
    }

    /// Handles `event` at the time `clock` in place, and gives the actions
    /// that are due, in their order.
    pub fn step(&mut self, event: Event, clock: Clock) -> (actions: Vec<Action>)
        ensures
            (final(self)@, views(actions@)) == step(old(self)@, event@, clock),
            consistent(old(self)@),
            consistent(final(self)@),
    {
        let mut taken = Coordinator {
            local: DeviceInfo {
                id: String::new(),
                name: String::new(),
                ip: String::new(),
                device_type: String::new(),
            },
            peers: PeerTable::new(),
            capturing: false,
            outgoing: None,
            pending: None,
            session: None,
        };
        core::mem::swap(self, &mut taken);
        let (next, actions) = taken.advance(event, clock);
        *self = next;
        actions
    }
}

} // verus!
