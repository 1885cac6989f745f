//! The decisions of the accept loop.
//!
//! The caller binds the listening endpoint and then, while the server
//! runs, waits for an inbound connection for at most the wait ceiling,
//! reports how the wait ended and carries out the action it is given. The
//! re-check of the running flag after an empty wait is the only way the
//! loop learns of a shutdown.

use vstd::prelude::*;
use crate::registry::ConnId;

verus! {

/// How long one accept may wait, in seconds.
pub const ACCEPT_WAIT_SECS: u64 = 1;

/// The pause after a failed accept, in milliseconds.
pub const ACCEPT_BACKOFF_MILLIS: u64 = 100;

/// The loopback address of the listening endpoint.
pub const LISTEN_ADDRESS: &'static str = "127.0.0.1";

/// The port of the listening endpoint.
pub const LISTEN_PORT: u16 = 21221;

/// How one bounded accept ended.
#[derive(Clone, Copy, Debug, PartialEq, Eq, Structural)]
pub enum AcceptEvent {
    /// The listening endpoint could not be bound.
    BindFailed,
    /// A peer connected.
    Connected,
    /// The transport reported an error.
    Failed,
    /// The wait ceiling was reached without a connection.
    WaitElapsed,
}

/// What the accept loop does next.
#[derive(Clone, Copy, Debug, PartialEq, Eq, Structural)]
pub enum AcceptAction {
    /// Keep the new connection under this identifier and start its
    /// handshake, then go on accepting.
    Handshake(ConnId),
    /// Drop the new connection: no identifier is left for it.
    Refuse,
    /// Pause for the backoff, then go on accepting.
    Backoff,
    /// Go on accepting.
    Continue,
    /// Leave the loop: the server has been stopped, or there is no
    /// endpoint to accept on.
    Exit,
}

/// The action that answers an event, given whether the server is running
/// and how many identifiers the registry has handed out.
pub open spec fn action_for(event: AcceptEvent, running: bool, issued: nat) -> AcceptAction {
    match event {
        AcceptEvent::BindFailed => AcceptAction::Exit,
        AcceptEvent::Connected => if issued < u64::MAX {
            AcceptAction::Handshake(issued as ConnId)
        } else {
            AcceptAction::Refuse
        },
        AcceptEvent::Failed => AcceptAction::Backoff,
        AcceptEvent::WaitElapsed => if running {
            AcceptAction::Continue
        } else {
            AcceptAction::Exit
        },
    }
}

} // verus!
