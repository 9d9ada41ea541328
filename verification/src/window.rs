//! The window protocol: messages, and the client side of a session.

pub mod client;
pub mod client_msg;
pub mod compositor_msg;
pub mod laws;
pub mod lifecycle_events;
pub mod message;
pub mod naming;
pub mod opcodes;
pub mod protocol;
pub mod session_laws;
pub mod surface;
