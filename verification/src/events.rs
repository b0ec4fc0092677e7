//! The events that the coordinator takes and the actions that it gives.

use vstd::prelude::*;
use crate::control::WsMessage;
use crate::input_capture::CaptureControl;
use crate::input_simulator::Injection;
use crate::machine::{ActionView, EventView, OutcomeView};
use crate::protocol::Message;

verus! {

/// How a connection attempt ended.
#[derive(Debug, PartialEq, Eq)]
pub enum AttemptOutcome {
    /// The connection could not be made.
    ConnectFailed,
    /// No connection, or no answer, within the time allowed.
    TimedOut,
    /// The request could not be written or the answer could not be read.
    Broken,
    /// This frame came in answer.
    Reply(Message),
}

impl View for AttemptOutcome {
    type V = OutcomeView;

    open spec fn view(&self) -> OutcomeView {
        match *self {
            AttemptOutcome::ConnectFailed => OutcomeView::ConnectFailed,
            AttemptOutcome::TimedOut => OutcomeView::TimedOut,
            AttemptOutcome::Broken => OutcomeView::Broken,
            AttemptOutcome::Reply(m) => OutcomeView::Reply(m@),
        }
    }
}

/// What can happen to the coordinator.
#[derive(Debug, PartialEq, Eq)]
pub enum Event {
    /// A discovery datagram was decoded; `from_ip` is its sender.
    Datagram { message: Message, from_ip: String },
    /// A message arrived on the control bus. `fresh` is an unused handle,
    /// for the attempt that the message may start.
    Ui { command: WsMessage, fresh: u64 },
    /// The first frame arrived on the accepted connection `conn`.
    InboundFirst { conn: u64, message: Message, remote_ip: String },
    /// The accepted connection `conn` ended before it became a session.
    InboundClosed { conn: u64 },
    /// Time has passed.
    Tick,
    /// The attempt `attempt` is connected.
    Connected { attempt: u64 },
    /// The attempt `attempt` is over.
    AttemptEnded { attempt: u64, outcome: AttemptOutcome },
    /// A frame arrived on the session's connection.
    PeerMessage { conn: u64, message: Message },
    /// Reading or writing the connection `conn` failed.
    LinkFailed { conn: u64 },
    /// The hook reports.
    Captured { control: CaptureControl },
    /// The hook could not be installed, or it has ended.
    CaptureEnded,
}

impl View for Event {
    type V = EventView;

    open spec fn view(&self) -> EventView {
        match *self {
            Event::Datagram { message, from_ip } => EventView::Datagram {
                message: message@,
                from_ip: from_ip@,
            },
            Event::Ui { command, fresh } => EventView::Ui { command: command@, fresh },
            Event::InboundFirst { conn, message, remote_ip } => EventView::InboundFirst {
                conn,
                message: message@,
                remote_ip: remote_ip@,
            },
            Event::InboundClosed { conn } => EventView::InboundClosed { conn },
            Event::Tick => EventView::Tick,
            Event::Connected { attempt } => EventView::Connected { attempt },
            Event::AttemptEnded { attempt, outcome } => EventView::AttemptEnded {
                attempt,
                outcome: outcome@,
            },
            Event::PeerMessage { conn, message } => EventView::PeerMessage {
                conn,
                message: message@,
            },
            Event::LinkFailed { conn } => EventView::LinkFailed { conn },
            Event::Captured { control } => EventView::Captured { control: control@ },
            Event::CaptureEnded => EventView::CaptureEnded,
        }
    }
}

/// What the coordinator asks its caller to do.
#[derive(Debug, PartialEq, Eq)]
pub enum Action {
    /// Put a message on the control bus.
    Notify(WsMessage),
    /// Start connecting to `ip`, under the handle `attempt`: the
    /// connection may take `connect_ms` milliseconds to be made, and the
    /// answer to the request `answer_ms` milliseconds to come.
    Connect { attempt: u64, ip: String, port: u16, connect_ms: u64, answer_ms: u64 },
    /// Write one frame on the connection `conn`.
    Send { conn: u64, message: Message },
    /// Make the connection `conn` the session's: start its reader and
    /// its writer.
    Open { conn: u64 },
    /// Let go of the connection or the attempt `conn`.
    Close { conn: u64 },
    /// Inject into the host.
    Inject(Injection),
    /// Install the input hook.
    StartCapture,
    /// Stop the input hook.
    StopCapture,
}

impl View for Action {
    type V = ActionView;

    open spec fn view(&self) -> ActionView {
        match *self {
            Action::Notify(m) => ActionView::Notify(m@),
            Action::Connect { attempt, ip, port, connect_ms, answer_ms } => ActionView::Connect {
                attempt,
                ip: ip@,
                port,
                connect_ms,
                answer_ms,
            },
            Action::Send { conn, message } => ActionView::Send { conn, message: message@ },
            Action::Open { conn } => ActionView::Open { conn },
            Action::Close { conn } => ActionView::Close { conn },
            Action::Inject(i) => ActionView::Inject(i),
            Action::StartCapture => ActionView::StartCapture,
            Action::StopCapture => ActionView::StopCapture,
        }
    }
}

/// The views of a list of actions.
pub open spec fn views(actions: Seq<Action>) -> Seq<ActionView> {
    actions.map_values(|a: Action| a@)
}

} // verus!
