use provider_client::error::TransportError;
use provider_client::transport::{
    Diagnostic, ProviderLocation, Step, TransportAction, TransportEvent, TransportSession,
    KEEPALIVE_SECONDS, PROVIDER_CLIENT_PORT,
};

fn endpoint() -> ProviderLocation {
    ProviderLocation { ip: [10, 0, 0, 7], port: 9000 }
}

fn failure() -> (TransportSession, Step) {
    (
        TransportSession::Finished,
        Step { action: TransportAction::Finish { outcome: Err(TransportError) }, diagnostic: None },
    )
}

fn at_writing() -> TransportSession {
    let (session, _) = TransportSession::open(endpoint(), b"request".to_vec());
    session.step(TransportEvent::Completed).0
}

fn at_closing_write() -> TransportSession {
    at_writing().step(TransportEvent::Completed).0
}

fn at_reading() -> TransportSession {
    at_closing_write().step(TransportEvent::Completed).0
}

fn at_closing_read() -> TransportSession {
    at_reading().step(TransportEvent::Received(b"response".to_vec())).0
}

#[test]
fn constants_are_the_well_known_ones() {
    assert_eq!(PROVIDER_CLIENT_PORT, 9000);
    assert_eq!(KEEPALIVE_SECONDS, 2);
}

#[test]
fn at_client_port_overrides_the_port_only() {
    let location = ProviderLocation { ip: [192, 168, 1, 2], port: 1789 };
    assert_eq!(location.at_client_port(), ProviderLocation { ip: [192, 168, 1, 2], port: 9000 });
    assert_eq!(endpoint().at_client_port(), endpoint());
}

#[test]
fn session_opens_by_connecting_with_keepalive() {
    let (session, action) = TransportSession::open(endpoint(), b"request".to_vec());
    assert_eq!(session, TransportSession::Connecting { request: b"request".to_vec() });
    assert_eq!(action, TransportAction::Connect { endpoint: endpoint(), keepalive_seconds: 2 });
    assert!(!session.is_finished());
}

#[test]
fn exchange_runs_connect_write_close_read_close() {
    let (session, _) = TransportSession::open(endpoint(), b"request".to_vec());
    let (session, step) = session.step(TransportEvent::Completed);
    assert_eq!(session, TransportSession::Writing);
    assert_eq!(
        step,
        Step { action: TransportAction::Write { bytes: b"request".to_vec() }, diagnostic: None }
    );
    let (session, step) = session.step(TransportEvent::Completed);
    assert_eq!(session, TransportSession::ClosingWrite);
    assert_eq!(step, Step { action: TransportAction::CloseWrite, diagnostic: None });
    let (session, step) = session.step(TransportEvent::Completed);
    assert_eq!(session, TransportSession::Reading);
    assert_eq!(step, Step { action: TransportAction::ReadToEnd, diagnostic: None });
    let (session, step) = session.step(TransportEvent::Received(b"response".to_vec()));
    assert_eq!(session, TransportSession::ClosingRead { response: b"response".to_vec() });
    assert_eq!(step, Step { action: TransportAction::CloseRead, diagnostic: None });
    let (session, step) = session.step(TransportEvent::Completed);
    assert_eq!(session, TransportSession::Finished);
    assert!(session.is_finished());
    assert_eq!(
        step,
        Step {
            action: TransportAction::Finish { outcome: Ok(b"response".to_vec()) },
            diagnostic: None
        }
    );
}

#[test]
fn empty_response_is_a_response() {
    let (session, step) = at_reading().step(TransportEvent::Received(Vec::new()));
    assert_eq!(step.action, TransportAction::CloseRead);
    let (_, step) = session.step(TransportEvent::Completed);
    assert_eq!(step.action, TransportAction::Finish { outcome: Ok(Vec::new()) });
}

#[test]
fn connect_failure_fails_the_exchange() {
    let (session, _) = TransportSession::open(endpoint(), b"request".to_vec());
    assert_eq!(session.step(TransportEvent::Failed), failure());
    let (session, _) = TransportSession::open(endpoint(), b"request".to_vec());
    assert_eq!(session.step(TransportEvent::TimedOut), failure());
}

#[test]
fn write_failure_fails_the_exchange() {
    assert_eq!(at_writing().step(TransportEvent::Failed), failure());
    assert_eq!(at_writing().step(TransportEvent::TimedOut), failure());
}

#[test]
fn read_failure_fails_the_exchange() {
    assert_eq!(at_reading().step(TransportEvent::Failed), failure());
    assert_eq!(at_reading().step(TransportEvent::TimedOut), failure());
}

#[test]
fn failing_to_close_the_write_side_is_not_fatal() {
    let (session, step) = at_closing_write().step(TransportEvent::Failed);
    assert_eq!(session, TransportSession::Reading);
    assert_eq!(
        step,
        Step { action: TransportAction::ReadToEnd, diagnostic: Some(Diagnostic::WriteCloseFailed) }
    );
    assert_eq!(at_closing_write().step(TransportEvent::TimedOut), failure());
}

#[test]
fn failing_to_close_the_read_side_is_not_fatal() {
    let (session, step) = at_closing_read().step(TransportEvent::Failed);
    assert_eq!(session, TransportSession::Finished);
    assert_eq!(
        step,
        Step {
            action: TransportAction::Finish { outcome: Ok(b"response".to_vec()) },
            diagnostic: Some(Diagnostic::ReadCloseFailed)
        }
    );
}

#[test]
fn a_response_in_hand_is_not_lost() {
    let (_, step) = at_closing_read().step(TransportEvent::TimedOut);
    assert_eq!(
        step,
        Step {
            action: TransportAction::Finish { outcome: Ok(b"response".to_vec()) },
            diagnostic: None
        }
    );
    let (_, step) = at_closing_read().step(TransportEvent::Received(b"other".to_vec()));
    assert_eq!(step.action, TransportAction::Finish { outcome: Ok(b"response".to_vec()) });
}

#[test]
fn events_that_answer_nothing_fail_the_exchange() {
    let (session, _) = TransportSession::open(endpoint(), b"request".to_vec());
    assert_eq!(session.step(TransportEvent::Received(b"early".to_vec())), failure());
    assert_eq!(at_writing().step(TransportEvent::Received(b"early".to_vec())), failure());
    assert_eq!(at_closing_write().step(TransportEvent::Received(b"early".to_vec())), failure());
    assert_eq!(at_reading().step(TransportEvent::Completed), failure());
}

#[test]
fn a_finished_session_stays_finished() {
    let (session, _) = at_closing_read().step(TransportEvent::Completed);
    assert_eq!(session.step(TransportEvent::Completed), failure());
    assert_eq!(TransportSession::Finished.step(TransportEvent::Received(vec![1])), failure());
    assert_eq!(TransportSession::Finished.step(TransportEvent::Failed), failure());
    assert_eq!(TransportSession::Finished.step(TransportEvent::TimedOut), failure());
}
