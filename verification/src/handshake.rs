//! The one-shot password exchange that promotes a connection.
//!
//! A connection starts in the state of awaiting its password. The caller
//! makes one bounded read on the socket and reports how it ended; the
//! functions here decide where the handshake goes from there, what is
//! written back and what becomes of the registry.

use vstd::prelude::*;
use vstd::string::*;
use vstd::utf8::{encode_utf8, encode_utf8_decode_utf8, encode_utf8_valid_utf8};
use crate::codec::{decode_lossy, lossy_text, trim, trimmed, white_space};
use crate::registry::{ConnId, RegistryView};

verus! {

/// The most bytes that the single read of a handshake takes.
pub const HANDSHAKE_BUFFER_SIZE: usize = 1024;

/// How long the read of a handshake may wait, in seconds.
pub const HANDSHAKE_WAIT_SECS: u64 = 5;

/// How the bounded read of a handshake ended.
#[derive(Debug)]
pub enum ReadEvent {
    /// The read returned these bytes; none at all if the peer had closed.
    Received(Vec<u8>),
    /// Nothing arrived within the wait.
    TimedOut,
    /// The transport reported an error.
    Failed,
}

/// The state in which a handshake ends.
#[derive(Clone, Copy, Debug, PartialEq, Eq, Structural)]
pub enum HandshakeOutcome {
    Authenticated,
    Rejected,
    TimedOut,
    ReadError,
    PeerClosed,
}

/// The line that confirms a correct password.
pub open spec fn confirmation() -> Seq<char> {
    "Correct password! Connected.\n"@
}

/// The line that answers a wrong password.
pub open spec fn rejection() -> Seq<char> {
    "Incorrect password!\n"@
}

/// The password attempt that received bytes stand for: their text, read
/// leniently, without the white space around it.
pub open spec fn attempt_of(bytes: Seq<u8>) -> Seq<char> {
    trimmed(lossy_text(bytes))
}

/// Where a password attempt leads.
pub open spec fn verdict(attempt: Seq<char>, password: Seq<char>) -> HandshakeOutcome {
    if attempt == password {
        HandshakeOutcome::Authenticated
    } else {
        HandshakeOutcome::Rejected
    }
}

/// Where received bytes lead: no bytes at all mean that the peer closed.
pub open spec fn outcome_of_bytes(bytes: Seq<u8>, password: Seq<char>) -> HandshakeOutcome {
    if bytes.len() == 0 {
        HandshakeOutcome::PeerClosed
    } else {
        verdict(attempt_of(bytes), password)
    }
}

/// Where the read of a handshake leads.
pub open spec fn outcome_of(event: ReadEvent, password: Seq<char>) -> HandshakeOutcome {
    match event {
        ReadEvent::Received(bytes) => outcome_of_bytes(bytes@, password),
        ReadEvent::TimedOut => HandshakeOutcome::TimedOut,
        ReadEvent::Failed => HandshakeOutcome::ReadError,
    }
}

/// The line written back to the peer, if any.
pub open spec fn reply_of(outcome: HandshakeOutcome) -> Option<Seq<char>> {
    match outcome {
        HandshakeOutcome::Authenticated => Some(confirmation()),
        HandshakeOutcome::Rejected => Some(rejection()),
        _ => None,
    }
}

/// What a finished handshake does to the registry: an authenticated
/// connection is promoted, one whose peer closed leaves both lists, and
/// every other stays as it was, open and never broadcast to.
pub open spec fn settle(registry: RegistryView, id: ConnId, outcome: HandshakeOutcome)
    -> RegistryView {
    match outcome {
        HandshakeOutcome::Authenticated => registry.promote(id),
        HandshakeOutcome::PeerClosed => registry.remove(id),
        _ => registry,
    }
}

impl HandshakeOutcome {
    /// The line to write back to the peer, if any.
    pub fn reply(self) -> (line: Option<&'static str>)
        ensures
            line is Some <==> reply_of(self) is Some,
            line is Some ==> line.unwrap()@ == reply_of(self).unwrap(),
    {
        match self {
            HandshakeOutcome::Authenticated => Some("Correct password! Connected.\n"),
            HandshakeOutcome::Rejected => Some("Incorrect password!\n"),
            _ => None,
        }
    }

    /// Whether the handshake ended in a failure of the connection's task: a
    /// timeout or a transport error.
    pub fn is_failure(self) -> (failure: bool)
        ensures
            failure == (self == HandshakeOutcome::TimedOut || self == HandshakeOutcome::ReadError),
    {
        match self {
            HandshakeOutcome::TimedOut => true,
            HandshakeOutcome::ReadError => true,
            _ => false,
        }
    }
}

/// Compares a password attempt with the configured password.
pub fn judge(attempt: &str, password: &str) -> (outcome: HandshakeOutcome)
    ensures
        outcome == verdict(attempt@, password@),
{
    let given: String = attempt.to_owned();
    let expected: String = password.to_owned();
    if given == expected {
        HandshakeOutcome::Authenticated
    } else {
        HandshakeOutcome::Rejected
    }
}

/// Reads the password attempt out of received bytes.
pub fn read_attempt(bytes: &Vec<u8>) -> (attempt: String)
    ensures
        attempt@ == attempt_of(bytes@),
{
    let text = decode_lossy(bytes);
    trim(text.as_str()).to_owned()
}

/// Decides the outcome of a handshake from how its read ended.
pub fn decide(event: &ReadEvent, password: &str) -> (outcome: HandshakeOutcome)
    ensures
        outcome == outcome_of(*event, password@),
{
    match event {
        ReadEvent::Received(bytes) => {
            if bytes.len() == 0 {
                HandshakeOutcome::PeerClosed
            } else {
                let attempt = read_attempt(bytes);
                judge(attempt.as_str(), password)
            }
        },
        ReadEvent::TimedOut => HandshakeOutcome::TimedOut,
        ReadEvent::Failed => HandshakeOutcome::ReadError,
    }
}

/// A correct password authenticates an open connection: after the
/// handshake it is in `authenticated`, and the confirmation line is the
/// reply.
pub proof fn law_correct_password_authenticates(
    registry: RegistryView,
    id: ConnId,
    bytes: Seq<u8>,
    password: Seq<char>,
)
    requires
        registry.all.contains(id),
        bytes.len() > 0,
        attempt_of(bytes) == password,
    ensures
        outcome_of_bytes(bytes, password) == HandshakeOutcome::Authenticated,
        settle(registry, id, HandshakeOutcome::Authenticated).authenticated.contains(id),
        reply_of(HandshakeOutcome::Authenticated) == Some(confirmation()),
{
    if !registry.authenticated.contains(id) {
        vstd::seq_lib::lemma_seq_contains_after_push(registry.authenticated, id, id);
    }
}

/// A client that sends the password itself, as UTF-8, is authenticated,
/// provided the password neither starts nor ends with white space.
pub proof fn law_password_bytes_authenticate(password: Seq<char>)
    requires
        password.len() > 0,
        !white_space(password.first()),
        !white_space(password.last()),
    ensures
        attempt_of(encode_utf8(password)) == password,
        outcome_of_bytes(encode_utf8(password), password) == HandshakeOutcome::Authenticated,
{
    let bytes = encode_utf8(password);
    encode_utf8_valid_utf8(password);
    encode_utf8_decode_utf8(password);
    assert(lossy_text(bytes) == password);
    assert(bytes.len() > 0) by {
        if bytes.len() == 0 {
            assert(vstd::utf8::decode_utf8(bytes) =~= Seq::<char>::empty());
        }
    }
}

/// A wrong password changes nothing in the registry, so a connection that
/// was not authenticated is not authenticated afterwards, and the
/// rejection line is the reply.
pub proof fn law_wrong_password_rejects(
    registry: RegistryView,
    id: ConnId,
    bytes: Seq<u8>,
    password: Seq<char>,
)
    requires
        bytes.len() > 0,
        attempt_of(bytes) != password,
    ensures
        outcome_of_bytes(bytes, password) == HandshakeOutcome::Rejected,
        settle(registry, id, HandshakeOutcome::Rejected) == registry,
        !registry.authenticated.contains(id) ==> !settle(
            registry,
            id,
            HandshakeOutcome::Rejected,
        ).authenticated.contains(id),
        reply_of(HandshakeOutcome::Rejected) == Some(rejection()),
{
}

} // verus!
