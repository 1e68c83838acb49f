use kime_indicator::category::EXIT_BYTE;
use kime_indicator::server::Server;
use kime_indicator::server::SessionEvent;
use kime_indicator::server::SessionOutcome;
use kime_indicator::InputCategory;

#[test]
fn fresh_server_holds_latin() {
    let server = Server::new();
    assert_eq!(server.current_byte(), InputCategory::Latin.encode());
}

#[test]
fn update_persists_between_sessions() {
    // First session: the client is pushed the default state and answers
    // with the hangul encoding; a later session then sees hangul.
    let mut server = Server::new();
    assert_eq!(server.current_byte(), 0);
    let outcome = server.handle_session(SessionEvent::Received(1));
    assert_eq!(outcome, SessionOutcome::Updated(InputCategory::Hangul));
    assert_eq!(server.current_byte(), 1);
}

#[test]
fn abandoned_session_changes_nothing() {
    let mut server = Server::new();
    server.handle_session(SessionEvent::Received(1));
    let outcome = server.handle_session(SessionEvent::NoData);
    assert_eq!(outcome, SessionOutcome::Abandoned);
    assert_eq!(server.current_byte(), 1);
}

#[test]
fn control_byte_terminates_and_keeps_state() {
    let mut server = Server::new();
    server.handle_session(SessionEvent::Received(1));
    let outcome = server.handle_session(SessionEvent::Received(EXIT_BYTE));
    assert_eq!(outcome, SessionOutcome::Terminated);
    assert_eq!(server.current_byte(), 1);
}

#[test]
fn sequential_updates_observed_in_order() {
    let mut server = Server::new();
    let sent = [1u8, 0, 1];
    let mut observed = Vec::new();
    for byte in sent {
        match server.handle_session(SessionEvent::Received(byte)) {
            SessionOutcome::Updated(category) => observed.push(category),
            other => panic!("expected an update, got {:?}", other),
        }
    }
    assert_eq!(
        observed,
        vec![
            InputCategory::Hangul,
            InputCategory::Latin,
            InputCategory::Hangul,
        ]
    );
}

#[test]
fn unknown_update_byte_is_stored_verbatim() {
    let mut server = Server::new();
    let outcome = server.handle_session(SessionEvent::Received(9));
    assert_eq!(outcome, SessionOutcome::Updated(InputCategory::Latin));
    assert_eq!(server.current_byte(), 9);
}
