use clipboard_hub::acceptor::{
    AcceptAction, AcceptEvent, ACCEPT_BACKOFF_MILLIS, ACCEPT_WAIT_SECS, LISTEN_ADDRESS,
    LISTEN_PORT,
};
use clipboard_hub::handshake::{
    decide, judge, read_attempt, HandshakeOutcome, ReadEvent, HANDSHAKE_BUFFER_SIZE,
    HANDSHAKE_WAIT_SECS,
};
use clipboard_hub::server::ServerState;

fn running(password: &str) -> ServerState {
    let mut state = ServerState::new();
    state.start(password.to_string()).unwrap();
    state
}

fn connect(state: &mut ServerState) -> u64 {
    match state.accept_step(AcceptEvent::Connected) {
        AcceptAction::Handshake(id) => id,
        other => panic!("unexpected action {:?}", other),
    }
}

#[test]
fn protocol_constants() {
    assert_eq!(HANDSHAKE_BUFFER_SIZE, 1024);
    assert_eq!(HANDSHAKE_WAIT_SECS, 5);
    assert_eq!(ACCEPT_WAIT_SECS, 1);
    assert_eq!(ACCEPT_BACKOFF_MILLIS, 100);
    assert_eq!(LISTEN_ADDRESS, "127.0.0.1");
    assert_eq!(LISTEN_PORT, 21221);
}

#[test]
fn reply_lines_are_the_literal_lines() {
    assert_eq!(HandshakeOutcome::Authenticated.reply(), Some("Correct password! Connected.\n"));
    assert_eq!(HandshakeOutcome::Rejected.reply(), Some("Incorrect password!\n"));
    assert_eq!(HandshakeOutcome::TimedOut.reply(), None);
    assert_eq!(HandshakeOutcome::ReadError.reply(), None);
    assert_eq!(HandshakeOutcome::PeerClosed.reply(), None);
}

#[test]
fn only_timeout_and_read_error_fail_the_task() {
    assert!(HandshakeOutcome::TimedOut.is_failure());
    assert!(HandshakeOutcome::ReadError.is_failure());
    assert!(!HandshakeOutcome::Authenticated.is_failure());
    assert!(!HandshakeOutcome::Rejected.is_failure());
    assert!(!HandshakeOutcome::PeerClosed.is_failure());
}

#[test]
fn judge_compares_exactly() {
    assert_eq!(judge("secret", "secret"), HandshakeOutcome::Authenticated);
    assert_eq!(judge("Secret", "secret"), HandshakeOutcome::Rejected);
    assert_eq!(judge("", "secret"), HandshakeOutcome::Rejected);
    assert_eq!(judge("", ""), HandshakeOutcome::Authenticated);
}

#[test]
fn attempt_is_trimmed_on_both_sides() {
    assert_eq!(read_attempt(&b"  secret \r\n".to_vec()), "secret");
    assert_eq!(read_attempt(&b"\tse cret\n".to_vec()), "se cret");
    assert_eq!(read_attempt(&b" \n ".to_vec()), "");
}

#[test]
fn attempt_replaces_ill_formed_bytes() {
    assert_eq!(read_attempt(&vec![b'a', 0xff, b'b']), "a\u{fffd}b");
    assert_eq!(read_attempt(&"p\u{e4}ss".as_bytes().to_vec()), "p\u{e4}ss");
}

#[test]
fn decide_covers_every_event() {
    assert_eq!(
        decide(&ReadEvent::Received(b"secret\n".to_vec()), "secret"),
        HandshakeOutcome::Authenticated
    );
    assert_eq!(
        decide(&ReadEvent::Received(b"wrong".to_vec()), "secret"),
        HandshakeOutcome::Rejected
    );
    assert_eq!(decide(&ReadEvent::Received(Vec::new()), "secret"), HandshakeOutcome::PeerClosed);
    assert_eq!(decide(&ReadEvent::Received(Vec::new()), ""), HandshakeOutcome::PeerClosed);
    assert_eq!(decide(&ReadEvent::TimedOut, "secret"), HandshakeOutcome::TimedOut);
    assert_eq!(decide(&ReadEvent::Failed, "secret"), HandshakeOutcome::ReadError);
}

#[test]
fn whitespace_only_attempt_matches_empty_password() {
    assert_eq!(decide(&ReadEvent::Received(b"\n".to_vec()), ""), HandshakeOutcome::Authenticated);
}

#[test]
fn correct_password_authenticates_and_confirms() {
    let mut state = running("secret");
    let id = connect(&mut state);
    let outcome = state.handle_client(id, &ReadEvent::Received(b"secret\n".to_vec()));
    assert_eq!(outcome, HandshakeOutcome::Authenticated);
    assert_eq!(outcome.reply(), Some("Correct password! Connected.\n"));
    assert_eq!(state.registry().authenticated(), vec![id]);
    assert_eq!(state.registry().all(), vec![id]);
}

#[test]
fn wrong_password_is_rejected_and_never_broadcast_to() {
    let mut state = running("secret");
    let id = connect(&mut state);
    let outcome = state.handle_client(id, &ReadEvent::Received(b"wrong".to_vec()));
    assert_eq!(outcome, HandshakeOutcome::Rejected);
    assert_eq!(outcome.reply(), Some("Incorrect password!\n"));
    assert!(state.registry().authenticated().is_empty());
    assert_eq!(state.registry().all(), vec![id]);
    let pass = state.broadcast("anything").unwrap();
    assert_eq!(pass.next_target(), None);
    assert!(pass.is_finished());
}

#[test]
fn peer_that_closed_leaves_the_registry() {
    let mut state = running("secret");
    let first = connect(&mut state);
    let second = connect(&mut state);
    let outcome = state.handle_client(first, &ReadEvent::Received(Vec::new()));
    assert_eq!(outcome, HandshakeOutcome::PeerClosed);
    assert_eq!(outcome.reply(), None);
    assert_eq!(state.registry().all(), vec![second]);
}

#[test]
fn timeout_and_read_error_abandon_the_connection_in_place() {
    let mut state = running("secret");
    let first = connect(&mut state);
    let second = connect(&mut state);
    assert_eq!(state.handle_client(first, &ReadEvent::TimedOut), HandshakeOutcome::TimedOut);
    assert_eq!(state.handle_client(second, &ReadEvent::Failed), HandshakeOutcome::ReadError);
    assert_eq!(state.registry().all(), vec![first, second]);
    assert!(state.registry().authenticated().is_empty());
}

#[test]
fn handshake_after_stop_does_not_enter_the_registry() {
    let mut state = running("secret");
    let id = connect(&mut state);
    state.stop().unwrap();
    let outcome = state.handle_client(id, &ReadEvent::Received(b"secret".to_vec()));
    assert_eq!(outcome, HandshakeOutcome::Authenticated);
    assert!(state.registry().authenticated().is_empty());
    assert!(state.registry().all().is_empty());
}

#[test]
fn accept_step_answers_each_event() {
    let mut state = running("secret");
    assert_eq!(state.accept_step(AcceptEvent::Connected), AcceptAction::Handshake(0));
    assert_eq!(state.accept_step(AcceptEvent::Failed), AcceptAction::Backoff);
    assert_eq!(state.accept_step(AcceptEvent::WaitElapsed), AcceptAction::Continue);
    assert_eq!(state.registry().all(), vec![0]);
    state.stop().unwrap();
    assert_eq!(state.accept_step(AcceptEvent::WaitElapsed), AcceptAction::Exit);
    assert_eq!(state.accept_step(AcceptEvent::Failed), AcceptAction::Backoff);
}

#[test]
fn failed_bind_ends_the_loop_and_keeps_the_flag() {
    let mut state = running("secret");
    assert_eq!(state.accept_step(AcceptEvent::BindFailed), AcceptAction::Exit);
    assert!(state.status());
    assert!(state.registry().all().is_empty());
}

#[test]
fn connection_accepted_after_stop_is_still_registered() {
    let mut state = running("secret");
    state.stop().unwrap();
    assert_eq!(state.accept_step(AcceptEvent::Connected), AcceptAction::Handshake(0));
    assert_eq!(state.registry().all(), vec![0]);
}
