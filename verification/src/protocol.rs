//! The messages that peers exchange, and their mathematical view.

use vstd::prelude::*;

verus! {

/// A message of the session and discovery protocol.
#[derive(Debug, PartialEq, Eq)]
pub enum Message {
    /// Announce of a peer: its identifier, its display name and its session port.
    Discovery { id: String, name: String, port: u16 },
    /// Relative pointer motion.
    MouseMove { x: i32, y: i32 },
    /// Pointer button change; `button` is 0 for left, 1 for right, 2 for middle.
    MouseClick { button: u8, state: bool },
    /// Key change; `state` is true when the key goes down.
    KeyPress { key: u32, state: bool },
    /// Opens the handshake.
    ConnectRequest,
    /// Answers the handshake.
    ConnectResponse { success: bool },
    /// Tells the peer that the session ends.
    Disconnect,
}

/// What a [`Message`] is, with strings as sequences of characters.
pub enum MessageView {
    Discovery { id: Seq<char>, name: Seq<char>, port: u16 },
    MouseMove { x: i32, y: i32 },
    MouseClick { button: u8, state: bool },
    KeyPress { key: u32, state: bool },
    ConnectRequest,
    ConnectResponse { success: bool },
    Disconnect,
}

impl View for Message {
    type V = MessageView;

    open spec fn view(&self) -> MessageView {
        match *self {
            Message::Discovery { id, name, port } => MessageView::Discovery {
                id: id@,
                name: name@,
                port,
            },
            Message::MouseMove { x, y } => MessageView::MouseMove { x, y },
            Message::MouseClick { button, state } => MessageView::MouseClick { button, state },
            Message::KeyPress { key, state } => MessageView::KeyPress { key, state },
            Message::ConnectRequest => MessageView::ConnectRequest,
            Message::ConnectResponse { success } => MessageView::ConnectResponse { success },
            Message::Disconnect => MessageView::Disconnect,
        }
    }
}

impl Clone for Message {
    fn clone(&self) -> (res: Self)
        ensures
            res@ == self@,
    {
        match self {
            Message::Discovery { id, name, port } => Message::Discovery {
                id: id.clone(),
                name: name.clone(),
                port: *port,
            },
            Message::MouseMove { x, y } => Message::MouseMove { x: *x, y: *y },
            Message::MouseClick { button, state } => Message::MouseClick {
                button: *button,
                state: *state,
            },
            Message::KeyPress { key, state } => Message::KeyPress { key: *key, state: *state },
            Message::ConnectRequest => Message::ConnectRequest,
            Message::ConnectResponse { success } => Message::ConnectResponse { success: *success },
            Message::Disconnect => Message::Disconnect,
        }
    }
}

} // verus!
