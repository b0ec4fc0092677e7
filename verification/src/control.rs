//! The messages of the control bus between the coordinator and the user
//! interface, and the values they carry.

use vstd::prelude::*;

verus! {

/// Descriptor of a device on the network.
#[derive(Debug, PartialEq, Eq)]
pub struct DeviceInfo {
    pub id: String,
    pub name: String,
    pub ip: String,
    pub device_type: String,
}

/// What a [`DeviceInfo`] is, with strings as sequences of characters.
pub struct DeviceView {
    pub id: Seq<char>,
    pub name: Seq<char>,
    pub ip: Seq<char>,
    pub device_type: Seq<char>,
}

impl View for DeviceInfo {
    type V = DeviceView;

    open spec fn view(&self) -> DeviceView {
        DeviceView { id: self.id@, name: self.name@, ip: self.ip@, device_type: self.device_type@ }
    }
}

impl Clone for DeviceInfo {
    fn clone(&self) -> (res: Self)
        ensures
            res@ == self@,
    {
        DeviceInfo {
            id: self.id.clone(),
            name: self.name.clone(),
            ip: self.ip.clone(),
            device_type: self.device_type.clone(),
        }
    }
}

/// An input event as the user interface sees it. `event_type` is one of
/// `mousemove`, `mousedown`, `mouseup`, `wheel`, `keydown`, `keyup` and
/// `longpress`; positions and deltas are whole numbers.
#[derive(Debug, PartialEq, Eq)]
pub struct InputEvent {
    pub event_type: String,
    pub x: Option<i64>,
    pub y: Option<i64>,
    pub dx: Option<i64>,
    pub dy: Option<i64>,
    pub key: Option<String>,
    pub timestamp: u64,
}

/// What an [`InputEvent`] is, with strings as sequences of characters.
pub struct InputEventView {
    pub event_type: Seq<char>,
    pub x: Option<i64>,
    pub y: Option<i64>,
    pub dx: Option<i64>,
    pub dy: Option<i64>,
    pub key: Option<Seq<char>>,
    pub timestamp: u64,
}

/// The view of an optional string.
pub open spec fn opt_text(s: Option<String>) -> Option<Seq<char>> {
    match s {
        Some(t) => Some(t@),
        None => None,
    }
}

/// Copies an optional string.
pub fn clone_opt_text(s: &Option<String>) -> (res: Option<String>)
    ensures
        opt_text(res) == opt_text(*s),
{
    match s {
        Some(t) => Some(t.clone()),
        None => None,
    }
}

impl View for InputEvent {
    type V = InputEventView;

    open spec fn view(&self) -> InputEventView {
        InputEventView {
            event_type: self.event_type@,
            x: self.x,
            y: self.y,
            dx: self.dx,
            dy: self.dy,
            key: opt_text(self.key),
            timestamp: self.timestamp,
        }
    }
}

impl Clone for InputEvent {
    fn clone(&self) -> (res: Self)
        ensures
            res@ == self@,
    {
        InputEvent {
            event_type: self.event_type.clone(),
            x: self.x,
            y: self.y,
            dx: self.dx,
            dy: self.dy,
            key: clone_opt_text(&self.key),
            timestamp: self.timestamp,
        }
    }
}

/// A message of the control bus. The first ten come from the user
/// interface, the others go to it.
#[derive(Debug, PartialEq, Eq)]
pub enum WsMessage {
    StartDiscovery,
    StartCapture,
    StopCapture,
    RequestConnection { target_device_id: String },
    CancelConnection,
    AcceptConnection { target_device_id: String },
    RejectConnection { target_device_id: String },
    Disconnect,
    SendInput { event: InputEvent },
    GetLocalInfo,
    LocalInfo { device: DeviceInfo },
    LocalInput { event: InputEvent },
    DeviceFound { device: DeviceInfo },
    ConnectionRequest { device: DeviceInfo },
    ConnectionRequestCancelled { device_id: String },
    ConnectionEstablished { device_id: String },
    ConnectionFailed { device_id: String, reason: String },
    Disconnected,
    RemoteInput { event: InputEvent },
}

/// What a [`WsMessage`] is, with strings as sequences of characters.
pub enum WsMessageView {
    StartDiscovery,
    StartCapture,
    StopCapture,
    RequestConnection { target_device_id: Seq<char> },
    CancelConnection,
    AcceptConnection { target_device_id: Seq<char> },
    RejectConnection { target_device_id: Seq<char> },
    Disconnect,
    SendInput { event: InputEventView },
    GetLocalInfo,
    LocalInfo { device: DeviceView },
    LocalInput { event: InputEventView },
    DeviceFound { device: DeviceView },
    ConnectionRequest { device: DeviceView },
    ConnectionRequestCancelled { device_id: Seq<char> },
    ConnectionEstablished { device_id: Seq<char> },
    ConnectionFailed { device_id: Seq<char>, reason: Seq<char> },
    Disconnected,
    RemoteInput { event: InputEventView },
}

impl View for WsMessage {
    type V = WsMessageView;

    open spec fn view(&self) -> WsMessageView {
        match *self {
            WsMessage::StartDiscovery => WsMessageView::StartDiscovery,
            WsMessage::StartCapture => WsMessageView::StartCapture,
            WsMessage::StopCapture => WsMessageView::StopCapture,
            WsMessage::RequestConnection { target_device_id } => WsMessageView::RequestConnection {
                target_device_id: target_device_id@,
            },
            WsMessage::CancelConnection => WsMessageView::CancelConnection,
            WsMessage::AcceptConnection { target_device_id } => WsMessageView::AcceptConnection {
                target_device_id: target_device_id@,
            },
            WsMessage::RejectConnection { target_device_id } => WsMessageView::RejectConnection {
                target_device_id: target_device_id@,
            },
            WsMessage::Disconnect => WsMessageView::Disconnect,
            WsMessage::SendInput { event } => WsMessageView::SendInput { event: event@ },
            WsMessage::GetLocalInfo => WsMessageView::GetLocalInfo,
            WsMessage::LocalInfo { device } => WsMessageView::LocalInfo { device: device@ },
            WsMessage::LocalInput { event } => WsMessageView::LocalInput { event: event@ },
            WsMessage::DeviceFound { device } => WsMessageView::DeviceFound { device: device@ },
            WsMessage::ConnectionRequest { device } => WsMessageView::ConnectionRequest {
                device: device@,
            },
            WsMessage::ConnectionRequestCancelled {
                device_id,
            } => WsMessageView::ConnectionRequestCancelled { device_id: device_id@ },
            WsMessage::ConnectionEstablished { device_id } => WsMessageView::ConnectionEstablished {
                device_id: device_id@,
            },
            WsMessage::ConnectionFailed { device_id, reason } => WsMessageView::ConnectionFailed {
                device_id: device_id@,
                reason: reason@,
            },
            WsMessage::Disconnected => WsMessageView::Disconnected,
            WsMessage::RemoteInput { event } => WsMessageView::RemoteInput { event: event@ },
        }
    }
}

} // verus!
