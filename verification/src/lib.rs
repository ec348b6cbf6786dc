//! Verified core of an embedded SOCKS5 front-end for an anonymizing-network
//! client: the wire protocol, the per-connection state machine, the accept
//! loop's policy and the lifecycle of the shared engine, client and listener.
//!
//! Nothing in this crate touches a socket, a thread or the network. The
//! state machines take what happened as plain values and answer with what to
//! do next; the surrounding program performs it.

pub mod handler;
pub mod host;
pub mod lifecycle;
pub mod listener;
pub mod socks5;
pub mod text;
