use shareflow::control::{DeviceInfo, InputEvent, WsMessage};
use shareflow::coordinator::Coordinator;
use shareflow::events::{Action, AttemptOutcome, Event};
use shareflow::input_capture::{CaptureControl, InputEventData};
use shareflow::input_simulator::Injection;
use shareflow::keys::{Button, Key};
use shareflow::machine::{Clock, SESSION_PORT};
use shareflow::protocol::Message;

fn device(id: &str, name: &str, ip: &str) -> DeviceInfo {
    DeviceInfo {
        id: id.to_string(),
        name: name.to_string(),
        ip: ip.to_string(),
        device_type: "DESKTOP".to_string(),
    }
}

fn at(now: u64) -> Clock {
    Clock { now, stamp: 1_700_000_000_000 + now }
}

fn host_a() -> Coordinator {
    Coordinator::new(device("device-a", "A", "192.168.1.10"))
}

fn host_b() -> Coordinator {
    Coordinator::new(device("device-b", "B", "192.168.1.20"))
}

fn hear(c: &mut Coordinator, id: &str, name: &str, ip: &str, now: u64) -> Vec<Action> {
    c.step(
        Event::Datagram {
            message: Message::Discovery { id: id.to_string(), name: name.to_string(), port: 8080 },
            from_ip: ip.to_string(),
        },
        at(now),
    )
}

fn ui(c: &mut Coordinator, command: WsMessage, now: u64) -> Vec<Action> {
    c.step(Event::Ui { command, fresh: 1000 + now }, at(now))
}

fn request_from(c: &mut Coordinator, conn: u64, ip: &str, now: u64) -> Vec<Action> {
    c.step(
        Event::InboundFirst {
            conn,
            message: Message::ConnectRequest,
            remote_ip: ip.to_string(),
        },
        at(now),
    )
}

fn refusal(conn: u64) -> Action {
    Action::Send { conn, message: Message::ConnectResponse { success: false } }
}

fn input(event_type: &str, key: Option<&str>, dx: Option<i64>, dy: Option<i64>) -> InputEvent {
    InputEvent {
        event_type: event_type.to_string(),
        x: None,
        y: None,
        dx,
        dy,
        key: key.map(|k| k.to_string()),
        timestamp: 0,
    }
}

fn captured(event_type: &str, key: Option<&str>, code: Option<u32>) -> InputEventData {
    InputEventData {
        event_type: event_type.to_string(),
        key: key.map(|k| k.to_string()),
        key_code: code,
        x: None,
        y: None,
        dx: None,
        dy: None,
    }
}

/// A and B with a session between them: A asked as attempt 7, B accepted
/// on its connection 3.
fn connected_pair() -> (Coordinator, Coordinator) {
    let mut a = host_a();
    let mut b = host_b();
    hear(&mut a, "device-b", "B", "192.168.1.20", 0);
    hear(&mut b, "device-a", "A", "192.168.1.10", 0);
    a.step(
        Event::Ui {
            command: WsMessage::RequestConnection { target_device_id: "device-b".to_string() },
            fresh: 7,
        },
        at(10),
    );
    a.step(Event::Connected { attempt: 7 }, at(11));
    request_from(&mut b, 3, "192.168.1.10", 12);
    ui(&mut b, WsMessage::AcceptConnection { target_device_id: "device-a".to_string() }, 13);
    a.step(
        Event::AttemptEnded {
            attempt: 7,
            outcome: AttemptOutcome::Reply(Message::ConnectResponse { success: true }),
        },
        at(14),
    );
    (a, b)
}

#[test]
fn discovery_shows_a_new_peer_once() {
    let mut a = host_a();
    let found = hear(&mut a, "device-b", "B", "192.168.1.20", 100);
    assert_eq!(
        found,
        vec![Action::Notify(WsMessage::DeviceFound { device: device("device-b", "B", "192.168.1.20") })]
    );
    assert_eq!(hear(&mut a, "device-b", "B", "192.168.1.20", 1100), vec![]);
}

#[test]
fn own_announce_is_ignored() {
    let mut a = host_a();
    assert_eq!(hear(&mut a, "device-a", "A", "192.168.1.10", 100), vec![]);
    assert_eq!(ui(&mut a, WsMessage::StartDiscovery, 200), vec![]);
}

#[test]
fn other_datagrams_are_ignored() {
    let mut a = host_a();
    let actions = a.step(
        Event::Datagram { message: Message::ConnectRequest, from_ip: "192.168.1.20".to_string() },
        at(5),
    );
    assert_eq!(actions, vec![]);
}

#[test]
fn discovery_scenario_lists_peers_and_forgets_stale_ones() {
    let mut a = host_a();
    hear(&mut a, "device-b", "B", "192.168.1.20", 0);
    hear(&mut a, "device-c", "C", "192.168.1.30", 500);
    hear(&mut a, "device-c", "C2", "192.168.1.31", 9_000);
    let listed = ui(&mut a, WsMessage::StartDiscovery, 10_000);
    assert_eq!(
        listed,
        vec![
            Action::Notify(WsMessage::DeviceFound { device: device("device-b", "B", "192.168.1.20") }),
            Action::Notify(WsMessage::DeviceFound { device: device("device-c", "C2", "192.168.1.31") }),
        ]
    );
    let later = ui(&mut a, WsMessage::StartDiscovery, 12_000);
    assert_eq!(
        later,
        vec![Action::Notify(WsMessage::DeviceFound { device: device("device-c", "C2", "192.168.1.31") })]
    );
    assert_eq!(ui(&mut a, WsMessage::StartDiscovery, 19_001), vec![]);
}

#[test]
fn local_info_is_reported() {
    let mut a = host_a();
    assert_eq!(
        ui(&mut a, WsMessage::GetLocalInfo, 1),
        vec![Action::Notify(WsMessage::LocalInfo { device: device("device-a", "A", "192.168.1.10") })]
    );
}

#[test]
fn pending_request_is_shown_again_with_local_info() {
    let mut b = host_b();
    hear(&mut b, "device-a", "A", "192.168.1.10", 0);
    request_from(&mut b, 3, "192.168.1.10", 5);
    assert_eq!(
        ui(&mut b, WsMessage::GetLocalInfo, 6),
        vec![
            Action::Notify(WsMessage::LocalInfo { device: device("device-b", "B", "192.168.1.20") }),
            Action::Notify(WsMessage::ConnectionRequest { device: device("device-a", "A", "192.168.1.10") }),
        ]
    );
}

#[test]
fn request_for_unknown_device_fails_at_once() {
    let mut a = host_a();
    assert_eq!(
        ui(&mut a, WsMessage::RequestConnection { target_device_id: "device-x".to_string() }, 1),
        vec![Action::Notify(WsMessage::ConnectionFailed {
            device_id: "device-x".to_string(),
            reason: "not-found".to_string(),
        })]
    );
    assert_eq!(ui(&mut a, WsMessage::CancelConnection, 2), vec![]);
}

#[test]
fn happy_path_session() {
    let mut a = host_a();
    let mut b = host_b();
    hear(&mut a, "device-b", "B", "192.168.1.20", 0);
    hear(&mut b, "device-a", "A", "192.168.1.10", 0);

    let asked = a.step(
        Event::Ui {
            command: WsMessage::RequestConnection { target_device_id: "device-b".to_string() },
            fresh: 7,
        },
        at(10),
    );
    assert_eq!(
        asked,
        vec![Action::Connect {
            attempt: 7,
            ip: "192.168.1.20".to_string(),
            port: SESSION_PORT,
            connect_ms: 5_000,
            answer_ms: 30_000,
        }]
    );
    assert_eq!(
        a.step(Event::Connected { attempt: 7 }, at(11)),
        vec![Action::Send { conn: 7, message: Message::ConnectRequest }]
    );

    assert_eq!(
        request_from(&mut b, 3, "192.168.1.10", 12),
        vec![Action::Notify(WsMessage::ConnectionRequest { device: device("device-a", "A", "192.168.1.10") })]
    );
    assert!(!b.in_session());
    assert_eq!(
        ui(&mut b, WsMessage::AcceptConnection { target_device_id: "device-a".to_string() }, 13),
        vec![
            Action::Send { conn: 3, message: Message::ConnectResponse { success: true } },
            Action::Open { conn: 3 },
            Action::Notify(WsMessage::ConnectionEstablished { device_id: "device-a".to_string() }),
        ]
    );
    assert!(b.in_session());

    assert_eq!(
        a.step(
            Event::AttemptEnded {
                attempt: 7,
                outcome: AttemptOutcome::Reply(Message::ConnectResponse { success: true }),
            },
            at(14),
        ),
        vec![
            Action::Open { conn: 7 },
            Action::Notify(WsMessage::ConnectionEstablished { device_id: "device-b".to_string() }),
        ]
    );
    assert!(a.in_session());

    let sent = ui(
        &mut a,
        WsMessage::SendInput { event: input("mousedown", Some("button0"), None, None) },
        20,
    );
    assert_eq!(
        sent,
        vec![Action::Send { conn: 7, message: Message::MouseClick { button: 0, state: true } }]
    );
    let replayed = b.step(
        Event::PeerMessage { conn: 3, message: Message::MouseClick { button: 0, state: true } },
        at(21),
    );
    assert_eq!(
        replayed,
        vec![
            Action::Inject(Injection::ButtonPress(Button::Left)),
            Action::Notify(WsMessage::RemoteInput {
                event: InputEvent {
                    event_type: "mousedown".to_string(),
                    x: None,
                    y: None,
                    dx: None,
                    dy: None,
                    key: Some("button0".to_string()),
                    timestamp: 1_700_000_000_021,
                },
            }),
        ]
    );
}

#[test]
fn rejection_reaches_the_asking_side() {
    let mut a = host_a();
    let mut b = host_b();
    hear(&mut a, "device-b", "B", "192.168.1.20", 0);
    hear(&mut b, "device-a", "A", "192.168.1.10", 0);
    a.step(
        Event::Ui {
            command: WsMessage::RequestConnection { target_device_id: "device-b".to_string() },
            fresh: 7,
        },
        at(10),
    );
    request_from(&mut b, 3, "192.168.1.10", 12);
    assert_eq!(
        ui(&mut b, WsMessage::RejectConnection { target_device_id: "device-a".to_string() }, 13),
        vec![refusal(3), Action::Close { conn: 3 }]
    );
    assert!(!b.in_session());
    assert_eq!(
        a.step(
            Event::AttemptEnded {
                attempt: 7,
                outcome: AttemptOutcome::Reply(Message::ConnectResponse { success: false }),
            },
            at(14),
        ),
        vec![
            Action::Close { conn: 7 },
            Action::Notify(WsMessage::ConnectionFailed {
                device_id: "device-b".to_string(),
                reason: "rejected".to_string(),
            }),
        ]
    );
    assert!(!a.in_session());
    assert_eq!(ui(&mut b, WsMessage::GetLocalInfo, 15).len(), 1);
}

#[test]
fn cancel_before_accept() {
    let mut a = host_a();
    let mut b = host_b();
    hear(&mut a, "device-b", "B", "192.168.1.20", 0);
    hear(&mut b, "device-a", "A", "192.168.1.10", 0);
    a.step(
        Event::Ui {
            command: WsMessage::RequestConnection { target_device_id: "device-b".to_string() },
            fresh: 7,
        },
        at(10),
    );
    request_from(&mut b, 3, "192.168.1.10", 12);
    assert_eq!(ui(&mut a, WsMessage::CancelConnection, 13), vec![Action::Close { conn: 7 }]);
    assert_eq!(ui(&mut a, WsMessage::CancelConnection, 14), vec![]);
    assert_eq!(
        b.step(Event::InboundClosed { conn: 3 }, at(15)),
        vec![
            refusal(3),
            Action::Close { conn: 3 },
            Action::Notify(WsMessage::ConnectionRequestCancelled { device_id: "device-a".to_string() }),
        ]
    );
    assert_eq!(
        ui(&mut b, WsMessage::AcceptConnection { target_device_id: "device-a".to_string() }, 16),
        vec![]
    );
    // The attempt is over for A: a late answer only lets go of the connection.
    assert_eq!(
        a.step(
            Event::AttemptEnded {
                attempt: 7,
                outcome: AttemptOutcome::Reply(Message::ConnectResponse { success: true }),
            },
            at(17),
        ),
        vec![Action::Close { conn: 7 }]
    );
    assert!(!a.in_session());
}

#[test]
fn timeout_on_both_sides() {
    let mut a = host_a();
    let mut b = host_b();
    hear(&mut a, "device-b", "B", "192.168.1.20", 0);
    hear(&mut b, "device-a", "A", "192.168.1.10", 0);
    a.step(
        Event::Ui {
            command: WsMessage::RequestConnection { target_device_id: "device-b".to_string() },
            fresh: 7,
        },
        at(10),
    );
    request_from(&mut b, 3, "192.168.1.10", 1_000);
    assert_eq!(b.step(Event::Tick, at(26_000)), vec![]);
    assert_eq!(b.step(Event::Tick, at(31_000)), vec![]);
    assert_eq!(b.step(Event::Tick, at(31_001)), vec![refusal(3), Action::Close { conn: 3 }]);
    assert_eq!(b.step(Event::Tick, at(36_000)), vec![]);
    assert_eq!(ui(&mut b, WsMessage::GetLocalInfo, 36_001).len(), 1);
    assert_eq!(
        a.step(Event::AttemptEnded { attempt: 7, outcome: AttemptOutcome::TimedOut }, at(30_010)),
        vec![
            Action::Close { conn: 7 },
            Action::Notify(WsMessage::ConnectionFailed {
                device_id: "device-b".to_string(),
                reason: "timeout".to_string(),
            }),
        ]
    );
}

#[test]
fn failed_attempts_name_their_reason() {
    let cases = vec![
        (AttemptOutcome::ConnectFailed, "connect-failed"),
        (AttemptOutcome::Broken, "handshake-error"),
        (AttemptOutcome::Reply(Message::Disconnect), "handshake-error"),
        (AttemptOutcome::Reply(Message::ConnectRequest), "handshake-error"),
        (AttemptOutcome::TimedOut, "timeout"),
    ];
    for (outcome, reason) in cases {
        let mut a = host_a();
        hear(&mut a, "device-b", "B", "192.168.1.20", 0);
        a.step(
            Event::Ui {
                command: WsMessage::RequestConnection { target_device_id: "device-b".to_string() },
                fresh: 7,
            },
            at(10),
        );
        assert_eq!(
            a.step(Event::AttemptEnded { attempt: 7, outcome }, at(20)),
            vec![
                Action::Close { conn: 7 },
                Action::Notify(WsMessage::ConnectionFailed {
                    device_id: "device-b".to_string(),
                    reason: reason.to_string(),
                }),
            ]
        );
        assert!(!a.in_session());
    }
}

#[test]
fn request_from_unknown_address_is_refused() {
    let mut b = host_b();
    assert_eq!(
        request_from(&mut b, 3, "192.168.1.99", 5),
        vec![refusal(3), Action::Close { conn: 3 }]
    );
    assert_eq!(ui(&mut b, WsMessage::GetLocalInfo, 6).len(), 1);
}

#[test]
fn first_frame_other_than_a_request_ends_the_connection() {
    let mut b = host_b();
    hear(&mut b, "device-a", "A", "192.168.1.10", 0);
    let actions = b.step(
        Event::InboundFirst {
            conn: 3,
            message: Message::Disconnect,
            remote_ip: "192.168.1.10".to_string(),
        },
        at(5),
    );
    assert_eq!(actions, vec![Action::Close { conn: 3 }]);
    assert_eq!(b.step(Event::InboundClosed { conn: 4 }, at(6)), vec![Action::Close { conn: 4 }]);
}

#[test]
fn second_request_supersedes_the_first() {
    let mut b = host_b();
    hear(&mut b, "device-a", "A", "192.168.1.10", 0);
    hear(&mut b, "device-c", "C", "192.168.1.30", 0);
    request_from(&mut b, 3, "192.168.1.10", 5);
    assert_eq!(
        request_from(&mut b, 4, "192.168.1.30", 6),
        vec![
            refusal(3),
            Action::Close { conn: 3 },
            Action::Notify(WsMessage::ConnectionRequestCancelled { device_id: "device-a".to_string() }),
            Action::Notify(WsMessage::ConnectionRequest { device: device("device-c", "C", "192.168.1.30") }),
        ]
    );
    assert_eq!(
        ui(&mut b, WsMessage::AcceptConnection { target_device_id: "device-a".to_string() }, 7),
        vec![]
    );
    assert_eq!(
        ui(&mut b, WsMessage::AcceptConnection { target_device_id: "device-c".to_string() }, 8),
        vec![
            Action::Send { conn: 4, message: Message::ConnectResponse { success: true } },
            Action::Open { conn: 4 },
            Action::Notify(WsMessage::ConnectionEstablished { device_id: "device-c".to_string() }),
        ]
    );
}

#[test]
fn session_leaves_no_request_of_either_kind() {
    let mut b = host_b();
    hear(&mut b, "device-a", "A", "192.168.1.10", 0);
    hear(&mut b, "device-c", "C", "192.168.1.30", 0);
    b.step(
        Event::Ui {
            command: WsMessage::RequestConnection { target_device_id: "device-c".to_string() },
            fresh: 9,
        },
        at(1),
    );
    request_from(&mut b, 3, "192.168.1.10", 5);
    assert_eq!(
        ui(&mut b, WsMessage::AcceptConnection { target_device_id: "device-a".to_string() }, 6),
        vec![
            Action::Close { conn: 9 },
            Action::Send { conn: 3, message: Message::ConnectResponse { success: true } },
            Action::Open { conn: 3 },
            Action::Notify(WsMessage::ConnectionEstablished { device_id: "device-a".to_string() }),
        ]
    );
    assert!(b.in_session() && !b.is_capturing());
    assert_eq!(ui(&mut b, WsMessage::CancelConnection, 7), vec![]);
    assert_eq!(
        b.step(
            Event::AttemptEnded {
                attempt: 9,
                outcome: AttemptOutcome::Reply(Message::ConnectResponse { success: true }),
            },
            at(8),
        ),
        vec![Action::Close { conn: 9 }]
    );
    assert_eq!(request_from(&mut b, 5, "192.168.1.30", 9), vec![refusal(5), Action::Close { conn: 5 }]);
    assert_eq!(
        ui(&mut b, WsMessage::RequestConnection { target_device_id: "device-c".to_string() }, 10),
        vec![Action::Notify(WsMessage::ConnectionFailed {
            device_id: "device-c".to_string(),
            reason: "busy".to_string(),
        })]
    );
}

#[test]
fn consent_to_the_asking_side_dismisses_its_pending_request() {
    let mut a = host_a();
    hear(&mut a, "device-b", "B", "192.168.1.20", 0);
    hear(&mut a, "device-c", "C", "192.168.1.30", 0);
    a.step(
        Event::Ui {
            command: WsMessage::RequestConnection { target_device_id: "device-b".to_string() },
            fresh: 7,
        },
        at(1),
    );
    request_from(&mut a, 3, "192.168.1.30", 2);
    assert_eq!(
        a.step(
            Event::AttemptEnded {
                attempt: 7,
                outcome: AttemptOutcome::Reply(Message::ConnectResponse { success: true }),
            },
            at(3),
        ),
        vec![
            refusal(3),
            Action::Close { conn: 3 },
            Action::Notify(WsMessage::ConnectionRequestCancelled { device_id: "device-c".to_string() }),
            Action::Open { conn: 7 },
            Action::Notify(WsMessage::ConnectionEstablished { device_id: "device-b".to_string() }),
        ]
    );
}

#[test]
fn newer_outgoing_request_replaces_the_older() {
    let mut a = host_a();
    hear(&mut a, "device-b", "B", "192.168.1.20", 0);
    hear(&mut a, "device-c", "C", "192.168.1.30", 0);
    a.step(
        Event::Ui {
            command: WsMessage::RequestConnection { target_device_id: "device-b".to_string() },
            fresh: 7,
        },
        at(1),
    );
    assert_eq!(
        a.step(
            Event::Ui {
                command: WsMessage::RequestConnection { target_device_id: "device-c".to_string() },
                fresh: 8,
            },
            at(2),
        ),
        vec![
            Action::Close { conn: 7 },
            Action::Connect {
                attempt: 8,
                ip: "192.168.1.30".to_string(),
                port: 8080,
                connect_ms: 5_000,
                answer_ms: 30_000,
            },
        ]
    );
    assert_eq!(a.step(Event::Connected { attempt: 7 }, at(3)), vec![Action::Close { conn: 7 }]);
}

#[test]
fn capture_needs_a_session() {
    let mut a = host_a();
    assert_eq!(ui(&mut a, WsMessage::StartCapture, 1), vec![]);
    assert!(!a.is_capturing());
    let (mut a, _) = connected_pair();
    assert_eq!(ui(&mut a, WsMessage::StartCapture, 20), vec![Action::StartCapture]);
    assert!(a.is_capturing());
    assert_eq!(ui(&mut a, WsMessage::StartCapture, 21), vec![]);
    assert_eq!(ui(&mut a, WsMessage::StopCapture, 22), vec![Action::StopCapture]);
    assert_eq!(ui(&mut a, WsMessage::StopCapture, 23), vec![]);
    assert!(!a.is_capturing());
}

#[test]
fn disconnect_ends_the_session_once() {
    let (mut a, mut b) = connected_pair();
    ui(&mut a, WsMessage::StartCapture, 20);
    assert_eq!(
        ui(&mut a, WsMessage::Disconnect, 21),
        vec![
            Action::StopCapture,
            Action::Send { conn: 7, message: Message::Disconnect },
            Action::Close { conn: 7 },
            Action::Notify(WsMessage::Disconnected),
        ]
    );
    assert!(!a.in_session());
    assert!(!a.is_capturing());
    assert_eq!(ui(&mut a, WsMessage::Disconnect, 22), vec![]);
    assert_eq!(
        b.step(Event::PeerMessage { conn: 3, message: Message::Disconnect }, at(23)),
        vec![Action::Close { conn: 3 }, Action::Notify(WsMessage::Disconnected)]
    );
    assert_eq!(b.step(Event::LinkFailed { conn: 3 }, at(24)), vec![]);
}

#[test]
fn link_failure_ends_the_session() {
    let (mut a, _) = connected_pair();
    assert_eq!(a.step(Event::LinkFailed { conn: 99 }, at(20)), vec![]);
    assert_eq!(
        a.step(Event::LinkFailed { conn: 7 }, at(21)),
        vec![Action::Close { conn: 7 }, Action::Notify(WsMessage::Disconnected)]
    );
    assert!(!a.in_session());
}

#[test]
fn escape_hatch_stops_capture_and_ends_the_session() {
    let (mut a, mut b) = connected_pair();
    ui(&mut a, WsMessage::StartCapture, 20);
    assert_eq!(
        a.step(Event::Captured { control: CaptureControl::ExitRequested }, at(21)),
        vec![
            Action::StopCapture,
            Action::Send { conn: 7, message: Message::Disconnect },
            Action::Close { conn: 7 },
            Action::Notify(WsMessage::Disconnected),
        ]
    );
    assert!(!a.is_capturing());
    assert!(!a.in_session());
    assert_eq!(a.step(Event::Captured { control: CaptureControl::ExitRequested }, at(22)), vec![]);
    assert_eq!(
        b.step(Event::PeerMessage { conn: 3, message: Message::Disconnect }, at(23)),
        vec![Action::Close { conn: 3 }, Action::Notify(WsMessage::Disconnected)]
    );
}

#[test]
fn zero_motion_is_not_sent() {
    let (mut a, _) = connected_pair();
    ui(&mut a, WsMessage::StartCapture, 20);
    let mut still = captured("mousemove", None, None);
    still.dx = Some(0);
    still.dy = Some(0);
    assert_eq!(
        a.step(Event::Captured { control: CaptureControl::InputEvent(still) }, at(21)),
        vec![]
    );
    assert_eq!(
        ui(&mut a, WsMessage::SendInput { event: input("mousemove", None, Some(0), Some(0)) }, 22),
        vec![]
    );
    assert_eq!(
        ui(&mut a, WsMessage::SendInput { event: input("mousemove", None, Some(3), None) }, 23),
        vec![]
    );
    let mut moved = captured("mousemove", None, None);
    moved.dx = Some(0);
    moved.dy = Some(-4);
    assert_eq!(
        a.step(Event::Captured { control: CaptureControl::InputEvent(moved) }, at(24)),
        vec![Action::Send { conn: 7, message: Message::MouseMove { x: 0, y: -4 } }]
    );
}

#[test]
fn motion_deltas_are_clamped_to_the_wire() {
    let (mut a, _) = connected_pair();
    assert_eq!(
        ui(
            &mut a,
            WsMessage::SendInput {
                event: input("mousemove", None, Some(5_000_000_000), Some(-5_000_000_000)),
            },
            20,
        ),
        vec![Action::Send { conn: 7, message: Message::MouseMove { x: i32::MAX, y: i32::MIN } }]
    );
}

#[test]
fn captured_events_are_shown_and_sent() {
    let (mut a, _) = connected_pair();
    let key = captured("keydown", Some("KeyA"), Some(65));
    assert_eq!(
        a.step(Event::Captured { control: CaptureControl::InputEvent(key) }, at(19)),
        vec![]
    );
    ui(&mut a, WsMessage::StartCapture, 20);
    let key = captured("keydown", Some("KeyA"), Some(65));
    assert_eq!(
        a.step(Event::Captured { control: CaptureControl::InputEvent(key) }, at(21)),
        vec![
            Action::Notify(WsMessage::LocalInput {
                event: InputEvent {
                    event_type: "keydown".to_string(),
                    x: None,
                    y: None,
                    dx: None,
                    dy: None,
                    key: Some("KeyA".to_string()),
                    timestamp: 1_700_000_000_021,
                },
            }),
            Action::Send { conn: 7, message: Message::KeyPress { key: 65, state: true } },
        ]
    );
    let click = captured("mouseup", Some("button2"), None);
    let actions = a.step(Event::Captured { control: CaptureControl::InputEvent(click) }, at(22));
    assert_eq!(actions.len(), 2);
    assert_eq!(
        actions[1],
        Action::Send { conn: 7, message: Message::MouseClick { button: 2, state: false } }
    );
    let unmapped = captured("keyup", Some("F5"), Some(0));
    let actions = a.step(Event::Captured { control: CaptureControl::InputEvent(unmapped) }, at(23));
    assert_eq!(actions.len(), 1);
    assert!(matches!(actions[0], Action::Notify(WsMessage::LocalInput { .. })));
}

#[test]
fn keys_known_by_name_only_get_a_code() {
    let (mut a, _) = connected_pair();
    ui(&mut a, WsMessage::StartCapture, 20);
    let cases = vec![
        ("KeyZ", Some(90u32)),
        ("Num7", Some(55)),
        ("Return", Some(13)),
        ("Space", Some(32)),
        ("Backspace", Some(8)),
        ("Tab", Some(9)),
        ("Escape", Some(27)),
        ("ShiftLeft", None),
        ("Keys", Some(115)),
        ("KeyAB", None),
    ];
    for (name, code) in cases {
        let e = captured("keydown", Some(name), None);
        let actions = a.step(Event::Captured { control: CaptureControl::InputEvent(e) }, at(30));
        match code {
            Some(code) => assert_eq!(
                actions[1],
                Action::Send { conn: 7, message: Message::KeyPress { key: code, state: true } }
            ),
            None => assert_eq!(actions.len(), 1),
        }
    }
}

#[test]
fn ui_input_is_mapped_to_wire_messages() {
    let (mut a, _) = connected_pair();
    let cases = vec![
        (input("mousedown", Some("button1"), None, None), Some(Message::MouseClick { button: 1, state: true })),
        (input("mouseup", Some("button2"), None, None), Some(Message::MouseClick { button: 2, state: false })),
        (input("mouseup", None, None, None), Some(Message::MouseClick { button: 0, state: false })),
        (input("keydown", Some("a"), None, None), Some(Message::KeyPress { key: 97, state: true })),
        (input("keyup", Some("Enter"), None, None), Some(Message::KeyPress { key: 69, state: false })),
        (input("keydown", Some(""), None, None), Some(Message::KeyPress { key: 0, state: true })),
        (input("keydown", Some("é"), None, None), Some(Message::KeyPress { key: 233, state: true })),
        (input("keydown", None, None, None), None),
        (input("wheel", None, Some(0), Some(1)), None),
        (input("longpress", Some("a"), None, None), None),
        (input("mousemove", None, Some(2), Some(-1)), Some(Message::MouseMove { x: 2, y: -1 })),
    ];
    for (event, expected) in cases {
        let actions = ui(&mut a, WsMessage::SendInput { event }, 20);
        match expected {
            Some(message) => assert_eq!(actions, vec![Action::Send { conn: 7, message }]),
            None => assert_eq!(actions, vec![]),
        }
    }
    let mut idle = host_a();
    assert_eq!(
        ui(&mut idle, WsMessage::SendInput { event: input("keydown", Some("a"), None, None) }, 1),
        vec![]
    );
}

#[test]
fn controlled_side_replays_and_shows_keys() {
    let (_, mut b) = connected_pair();
    assert_eq!(
        b.step(Event::PeerMessage { conn: 3, message: Message::MouseMove { x: 3, y: -2 } }, at(20)),
        vec![Action::Inject(Injection::MoveRelative { dx: 3, dy: -2 })]
    );
    assert_eq!(
        b.step(Event::PeerMessage { conn: 3, message: Message::MouseMove { x: 0, y: 0 } }, at(21)),
        vec![]
    );
    let shown = |kind: &str, key: &str, now: u64| {
        Action::Notify(WsMessage::RemoteInput {
            event: InputEvent {
                event_type: kind.to_string(),
                x: None,
                y: None,
                dx: None,
                dy: None,
                key: Some(key.to_string()),
                timestamp: 1_700_000_000_000 + now,
            },
        })
    };
    assert_eq!(
        b.step(Event::PeerMessage { conn: 3, message: Message::KeyPress { key: 65, state: true } }, at(22)),
        vec![Action::Inject(Injection::KeyPress(Key::KeyA)), shown("keydown", "A", 22)]
    );
    assert_eq!(
        b.step(Event::PeerMessage { conn: 3, message: Message::KeyPress { key: 1, state: false } }, at(23)),
        vec![shown("keyup", "\u{1}", 23)]
    );
    assert_eq!(
        b.step(
            Event::PeerMessage { conn: 3, message: Message::KeyPress { key: 0xD800, state: false } },
            at(24),
        ),
        vec![shown("keyup", "?", 24)]
    );
    assert_eq!(
        b.step(
            Event::PeerMessage { conn: 3, message: Message::MouseClick { button: 200, state: false } },
            at(25),
        ),
        vec![Action::Inject(Injection::ButtonRelease(Button::Left)), shown("mouseup", "button200", 25)]
    );
    assert_eq!(
        b.step(Event::PeerMessage { conn: 3, message: Message::ConnectRequest }, at(26)),
        vec![]
    );
    assert_eq!(
        b.step(Event::PeerMessage { conn: 4, message: Message::MouseMove { x: 1, y: 1 } }, at(27)),
        vec![]
    );
}

#[test]
fn controller_side_does_not_replay() {
    let (mut a, _) = connected_pair();
    assert_eq!(
        a.step(Event::PeerMessage { conn: 7, message: Message::KeyPress { key: 65, state: true } }, at(20)),
        vec![]
    );
    assert_eq!(
        a.step(Event::PeerMessage { conn: 7, message: Message::Disconnect }, at(21)),
        vec![Action::Close { conn: 7 }, Action::Notify(WsMessage::Disconnected)]
    );
}

#[test]
fn bus_traffic_for_the_user_interface_is_not_handled() {
    let mut a = host_a();
    assert_eq!(ui(&mut a, WsMessage::Disconnected, 1), vec![]);
    assert_eq!(
        ui(&mut a, WsMessage::DeviceFound { device: device("device-b", "B", "1.2.3.4") }, 2),
        vec![]
    );
    assert_eq!(ui(&mut a, WsMessage::StartDiscovery, 3), vec![]);
}

#[test]
fn advance_gives_the_next_state() {
    let a = host_a();
    let (a, actions) = a.advance(Event::Tick, at(1));
    assert_eq!(actions, vec![]);
    let (a, actions) = a.advance(
        Event::Datagram {
            message: Message::Discovery { id: "device-b".to_string(), name: "B".to_string(), port: 1 },
            from_ip: "10.0.0.2".to_string(),
        },
        at(2),
    );
    assert_eq!(actions.len(), 1);
    assert!(!a.in_session());
}

#[test]
fn ended_hook_ends_capture() {
    let (mut a, _) = connected_pair();
    assert_eq!(a.step(Event::CaptureEnded, at(19)), vec![]);
    ui(&mut a, WsMessage::StartCapture, 20);
    assert_eq!(a.step(Event::CaptureEnded, at(21)), vec![Action::StopCapture]);
    assert!(!a.is_capturing());
    assert!(a.in_session());
}

#[test]
fn failed_link_of_an_attempt_ends_the_attempt() {
    let mut a = host_a();
    hear(&mut a, "device-b", "B", "192.168.1.20", 0);
    a.step(
        Event::Ui {
            command: WsMessage::RequestConnection { target_device_id: "device-b".to_string() },
            fresh: 7,
        },
        at(10),
    );
    assert_eq!(a.step(Event::LinkFailed { conn: 8 }, at(11)), vec![]);
    assert_eq!(
        a.step(Event::LinkFailed { conn: 7 }, at(12)),
        vec![
            Action::Close { conn: 7 },
            Action::Notify(WsMessage::ConnectionFailed {
                device_id: "device-b".to_string(),
                reason: "handshake-error".to_string(),
            }),
        ]
    );
    assert_eq!(a.step(Event::LinkFailed { conn: 7 }, at(13)), vec![]);
}

#[test]
fn every_request_is_answered_once() {
    let mut b = host_b();
    hear(&mut b, "device-a", "A", "192.168.1.10", 0);
    hear(&mut b, "device-c", "C", "192.168.1.30", 0);
    let mut all = Vec::new();
    all.extend(request_from(&mut b, 1, "192.168.1.10", 10));
    all.extend(request_from(&mut b, 2, "192.168.1.99", 11));
    all.extend(request_from(&mut b, 3, "192.168.1.30", 12));
    all.extend(b.step(Event::Tick, at(20_000)));
    all.extend(b.step(Event::Tick, at(50_000)));
    all.extend(request_from(&mut b, 4, "192.168.1.10", 50_001));
    all.extend(ui(&mut b, WsMessage::RejectConnection { target_device_id: "device-a".to_string() }, 50_002));
    all.extend(request_from(&mut b, 5, "192.168.1.30", 50_003));
    all.extend(b.step(Event::InboundClosed { conn: 5 }, at(50_004)));
    all.extend(request_from(&mut b, 6, "192.168.1.10", 50_005));
    all.extend(ui(&mut b, WsMessage::AcceptConnection { target_device_id: "device-a".to_string() }, 50_006));
    all.extend(request_from(&mut b, 7, "192.168.1.30", 50_007));
    for conn in 1..=7u64 {
        let answers: Vec<bool> = all
            .iter()
            .filter_map(|a| match a {
                Action::Send { conn: c, message: Message::ConnectResponse { success } }
                    if *c == conn =>
                {
                    Some(*success)
                }
                _ => None,
            })
            .collect();
        assert_eq!(answers, vec![conn == 6], "connection {}", conn);
        let answered = all
            .iter()
            .position(|a| matches!(a, Action::Send { conn: c, .. } if *c == conn))
            .unwrap();
        let closed = all.iter().position(|a| *a == Action::Close { conn });
        assert!(closed.map_or(conn == 6, |at| at > answered));
    }
}
