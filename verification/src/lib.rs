//! Coordination and transport core of a LAN keyboard and mouse sharing
//! service: the wire codec, the peer table, the connection state machine and
//! the input pipeline, as verified logic on plain values.

pub mod control;
pub mod coordinator;
pub mod discovery;
pub mod events;
pub mod identity;
pub mod input_capture;
pub mod input_simulator;
pub mod keys;
pub mod laws;
pub mod machine;
pub mod peers;
pub mod protocol;
pub mod routing;
pub mod text;
pub mod transport;
pub mod wire;
