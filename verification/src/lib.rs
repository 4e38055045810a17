//! Background network subsystem: endpoint binding decisions, the datagram
//! poll schedule, and the gateway port-mapping negotiation, each as a verified
//! state machine that a thin I/O driver feeds with observed events.

pub mod addr;
pub mod config;
pub mod global;
pub mod negotiator;
pub mod negotiator_laws;
pub mod poll;
pub mod sockets;
pub mod sockets_laws;
pub mod text;
pub mod tray;
