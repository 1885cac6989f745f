//! Core of a local-network clipboard hub: the connection registry, the
//! password handshake, the broadcast pass, the change detector of the
//! clipboard monitor and the start/stop lifecycle, each as a state machine
//! on plain values. The surrounding program owns the sockets, the timers
//! and the clipboard, performs the actions these functions return and
//! hands back what happened.

pub mod registry;
pub mod codec;
pub mod picture;
pub mod snapshot;
pub mod handshake;
pub mod broadcast;
pub mod monitor;
pub mod acceptor;
pub mod server;
