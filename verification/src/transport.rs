//! The transport session: one request and one response over one connection.
//!
//! Messages are delimited by closing the stream, not by a length prefix. The
//! client writes the whole request and closes its outbound direction; the
//! provider answers and closes its own, so the response is whatever arrives
//! before the end of the stream.
//!
//! The session does no I/O. It decides what is to be done next: a caller
//! performs each [`TransportAction`] and reports how it went as a
//! [`TransportEvent`], until the session hands out `Finish` with the result
//! of the exchange. Nothing in the session bounds the time that the provider
//! takes to close its side, so the caller sets a deadline for the whole
//! exchange and reports `TimedOut` when it has passed.

use vstd::prelude::*;
use crate::error::TransportError;

verus! {

/// The port on which every provider listens for its clients. The topology
/// advertises a provider's address among the mix nodes, not this listener.
pub const PROVIDER_CLIENT_PORT: u16 = 9000;

/// Seconds between keep-alive probes on a connection to a provider.
pub const KEEPALIVE_SECONDS: u64 = 2;

/// Where a provider can be reached: an IPv4 address and a port.
#[derive(Clone, Copy, Debug, PartialEq, Eq)]
pub struct ProviderLocation {
    pub ip: [u8; 4],
    pub port: u16,
}

impl ProviderLocation {
    /// The same host, at the port on which providers listen for clients.
    pub fn at_client_port(self) -> (location: ProviderLocation)
        ensures
            location.ip == self.ip,
            location.port == PROVIDER_CLIENT_PORT,
    {
        ProviderLocation { ip: self.ip, port: PROVIDER_CLIENT_PORT }
    }
}

/// How the action that the session asked for last went.
#[derive(Debug, PartialEq, Eq)]
pub enum TransportEvent {
    /// It was carried out. Reading reports `Received` instead.
    Completed,
    /// The stream was read to its end, and these bytes came.
    Received(Vec<u8>),
    /// It failed with an I/O error.
    Failed,
    /// The deadline of the exchange passed first.
    TimedOut,
}

/// The logical content of a [`TransportEvent`].
pub enum TransportEventView {
    Completed,
    Received(Seq<u8>),
    Failed,
    TimedOut,
}

impl View for TransportEvent {
    type V = TransportEventView;

    open spec fn view(&self) -> TransportEventView {
        match *self {
            TransportEvent::Completed => TransportEventView::Completed,
            TransportEvent::Received(bytes) => TransportEventView::Received(bytes@),
            TransportEvent::Failed => TransportEventView::Failed,
            TransportEvent::TimedOut => TransportEventView::TimedOut,
        }
    }
}

/// What the caller is to do next.
#[derive(Debug, PartialEq, Eq)]
pub enum TransportAction {
    /// Open a connection to `endpoint` and have it probed for liveness every
    /// `keepalive_seconds`.
    Connect { endpoint: ProviderLocation, keepalive_seconds: u64 },
    /// Write all of `bytes`.
    Write { bytes: Vec<u8> },
    /// Close the outbound direction: the request is complete.
    CloseWrite,
    /// Read until the provider closes its outbound direction.
    ReadToEnd,
    /// Close the inbound direction.
    CloseRead,
    /// Release the connection, if there is one. The exchange is over, and
    /// this is its result.
    Finish { outcome: Result<Vec<u8>, TransportError> },
}

/// The logical content of a [`TransportAction`].
pub enum TransportActionView {
    Connect { endpoint: ProviderLocation, keepalive_seconds: u64 },
    Write { bytes: Seq<u8> },
    CloseWrite,
    ReadToEnd,
    CloseRead,
    Finish { outcome: Result<Seq<u8>, TransportError> },
}

impl View for TransportAction {
    type V = TransportActionView;

    open spec fn view(&self) -> TransportActionView {
        match *self {
            TransportAction::Connect { endpoint, keepalive_seconds } => TransportActionView::Connect {
                endpoint,
                keepalive_seconds,
            },
            TransportAction::Write { bytes } => TransportActionView::Write { bytes: bytes@ },
            TransportAction::CloseWrite => TransportActionView::CloseWrite,
            TransportAction::ReadToEnd => TransportActionView::ReadToEnd,
            TransportAction::CloseRead => TransportActionView::CloseRead,
            TransportAction::Finish { outcome } => TransportActionView::Finish {
                outcome: match outcome {
                    Ok(bytes) => Ok(bytes@),
                    Err(error) => Err(error),
                },
            },
        }
    }
}

/// A condition that does not fail the exchange but is worth a log line: the
/// provider may be left waiting for the end of a request, or a connection
/// may linger.
#[derive(Clone, Copy, Debug, PartialEq, Eq, Structural)]
pub enum Diagnostic {
    /// The outbound direction could not be closed.
    WriteCloseFailed,
    /// The inbound direction could not be closed.
    ReadCloseFailed,
}

/// One exchange, by how far it has come.
#[derive(Debug, PartialEq, Eq)]
pub enum TransportSession {
    /// A connection is being opened. The request waits to be written.
    Connecting { request: Vec<u8> },
    /// The request is being written.
    Writing,
    /// The outbound direction is being closed.
    ClosingWrite,
    /// The response is being read.
    Reading,
    /// The response has come. The inbound direction is being closed.
    ClosingRead { response: Vec<u8> },
    /// The exchange is over.
    Finished,
}

/// The logical content of a [`TransportSession`].
pub enum TransportSessionView {
    Connecting { request: Seq<u8> },
    Writing,
    ClosingWrite,
    Reading,
    ClosingRead { response: Seq<u8> },
    Finished,
}

impl View for TransportSession {
    type V = TransportSessionView;

    open spec fn view(&self) -> TransportSessionView {
        match *self {
            TransportSession::Connecting { request } => TransportSessionView::Connecting {
                request: request@,
            },
            TransportSession::Writing => TransportSessionView::Writing,
            TransportSession::ClosingWrite => TransportSessionView::ClosingWrite,
            TransportSession::Reading => TransportSessionView::Reading,
            TransportSession::ClosingRead { response } => TransportSessionView::ClosingRead {
                response: response@,
            },
            TransportSession::Finished => TransportSessionView::Finished,
        }
    }
}

/// What a step of the session comes to.
pub struct Transition {
    /// The session after the step.
    pub session: TransportSessionView,
    /// What the caller is to do next.
    pub action: TransportActionView,
    /// What the caller should log, if anything.
    pub diagnostic: Option<Diagnostic>,
}

/// The exchange ends in failure.
pub open spec fn fail() -> Transition {
    Transition {
        session: TransportSessionView::Finished,
        action: TransportActionView::Finish { outcome: Err(TransportError) },
        diagnostic: None,
    }
}

/// The rules of the session.
///
/// A failure to connect, to write or to read ends the exchange in failure,
/// and so does the deadline while the response is still out. A failure to
/// close either direction does not: it is passed on as a diagnostic, and the
/// exchange goes on. Once the response has come, whatever happens next the
/// exchange ends with it. An event that cannot answer the action asked for
/// last ends the exchange in failure.
pub open spec fn next(session: TransportSessionView, event: TransportEventView) -> Transition {
    match session {
        TransportSessionView::Connecting { request } => match event {
            TransportEventView::Completed => Transition {
                session: TransportSessionView::Writing,
                action: TransportActionView::Write { bytes: request },
                diagnostic: None,
            },
            _ => fail(),
        },
        TransportSessionView::Writing => match event {
            TransportEventView::Completed => Transition {
                session: TransportSessionView::ClosingWrite,
                action: TransportActionView::CloseWrite,
                diagnostic: None,
            },
            _ => fail(),
        },
        TransportSessionView::ClosingWrite => match event {
            TransportEventView::Completed => Transition {
                session: TransportSessionView::Reading,
                action: TransportActionView::ReadToEnd,
                diagnostic: None,
            },
            TransportEventView::Failed => Transition {
                session: TransportSessionView::Reading,
                action: TransportActionView::ReadToEnd,
                diagnostic: Some(Diagnostic::WriteCloseFailed),
            },
            _ => fail(),
        },
        TransportSessionView::Reading => match event {
            TransportEventView::Received(response) => Transition {
                session: TransportSessionView::ClosingRead { response },
                action: TransportActionView::CloseRead,
                diagnostic: None,
            },
            _ => fail(),
        },
        TransportSessionView::ClosingRead { response } => Transition {
            session: TransportSessionView::Finished,
            action: TransportActionView::Finish { outcome: Ok(response) },
            diagnostic: match event {
                TransportEventView::Failed => Some(Diagnostic::ReadCloseFailed),
                _ => None,
            },
        },
        TransportSessionView::Finished => fail(),
    }
}

/// How many events a session can still take before it is over.
pub open spec fn steps_left(session: TransportSessionView) -> nat {
    match session {
        TransportSessionView::Connecting { .. } => 5,
        TransportSessionView::Writing => 4,
        TransportSessionView::ClosingWrite => 3,
        TransportSessionView::Reading => 2,
        TransportSessionView::ClosingRead { .. } => 1,
        TransportSessionView::Finished => 0,
    }
}

/// What a step of the session hands to the caller.
#[derive(Debug, PartialEq, Eq)]
pub struct Step {
    /// What the caller is to do next.
    pub action: TransportAction,
    /// What the caller should log, if anything.
    pub diagnostic: Option<Diagnostic>,
}

impl TransportSession {
    /// Begins an exchange of `request` with the provider at `endpoint`. The
    /// first thing to do is to connect.
    pub fn open(endpoint: ProviderLocation, request: Vec<u8>) -> (opened: (
        TransportSession,
        TransportAction,
    ))
        ensures
            opened.0@ == (TransportSessionView::Connecting { request: request@ }),
            opened.1@ == (TransportActionView::Connect {
                endpoint,
                keepalive_seconds: KEEPALIVE_SECONDS,
            }),
    {
        (
            TransportSession::Connecting { request },
            TransportAction::Connect { endpoint, keepalive_seconds: KEEPALIVE_SECONDS },
        )
    }

    /// Whether the exchange is over.
    pub fn is_finished(&self) -> (finished: bool)
        ensures
            finished <==> self@ is Finished,
    {
        match self {
            TransportSession::Finished => true,
            _ => false,
        }
    }

    /// Takes in how the last action went and says what to do next.
    pub fn step(self, event: TransportEvent) -> (stepped: (TransportSession, Step))
        ensures
            stepped.0@ == next(self@, event@).session,
            stepped.1.action@ == next(self@, event@).action,
            stepped.1.diagnostic == next(self@, event@).diagnostic,
    {
        match self {
            TransportSession::Connecting { request } => match event {
                TransportEvent::Completed => (
                    TransportSession::Writing,
                    Step { action: TransportAction::Write { bytes: request }, diagnostic: None },
                ),
                _ => Self::failed(),
            },
            TransportSession::Writing => match event {
                TransportEvent::Completed => (
                    TransportSession::ClosingWrite,
                    Step { action: TransportAction::CloseWrite, diagnostic: None },
                ),
                _ => Self::failed(),
            },
            TransportSession::ClosingWrite => match event {
                TransportEvent::Completed => (
                    TransportSession::Reading,
                    Step { action: TransportAction::ReadToEnd, diagnostic: None },
                ),
                TransportEvent::Failed => (
                    TransportSession::Reading,
                    Step {
                        action: TransportAction::ReadToEnd,
                        diagnostic: Some(Diagnostic::WriteCloseFailed),
                    },
                ),
                _ => Self::failed(),
            },
            TransportSession::Reading => match event {
                TransportEvent::Received(response) => (
                    TransportSession::ClosingRead { response },
                    Step { action: TransportAction::CloseRead, diagnostic: None },
                ),
                _ => Self::failed(),
            },
            TransportSession::ClosingRead { response } => {
                let diagnostic = match event {
                    TransportEvent::Failed => Some(Diagnostic::ReadCloseFailed),
                    _ => None,
                };
                (
                    TransportSession::Finished,
                    Step { action: TransportAction::Finish { outcome: Ok(response) }, diagnostic },
                )
            },
            TransportSession::Finished => Self::failed(),
        }
    }

    /// The end of an exchange that failed.
    fn failed() -> (stepped: (TransportSession, Step))
        ensures
            stepped.0@ == fail().session,
            stepped.1.action@ == fail().action,
            stepped.1.diagnostic == fail().diagnostic,
    {
        (
            TransportSession::Finished,
            Step { action: TransportAction::Finish { outcome: Err(TransportError) }, diagnostic: None },
        )
    }
}

/// The result of the exchange once the session has taken in `events` one
/// after the other, if it is over by then.
pub open spec fn outcome_after(
    session: TransportSessionView,
    events: Seq<TransportEventView>,
) -> Option<Result<Seq<u8>, TransportError>>
    decreases events.len(),
{
    if events.len() == 0 {
        None
    } else {
        let transition = next(session, events.first());
        match transition.action {
            TransportActionView::Finish { outcome } => Some(outcome),
            _ => outcome_after(transition.session, events.drop_first()),
        }
    }
}

/// Every step either ends the exchange or brings its end one step nearer:
/// no exchange takes more than five events.
pub proof fn lemma_step_progress(session: TransportSessionView, event: TransportEventView)
    ensures
        next(session, event).action is Finish <==> next(session, event).session is Finished,
        !(next(session, event).session is Finished) ==> steps_left(next(session, event).session)
            + 1 == steps_left(session),
{
}

/// A failure to connect, to write or to read, and the deadline passing
/// before the response has come, end the exchange in failure.
pub proof fn lemma_failure_ends_exchange(session: TransportSessionView, event: TransportEventView)
    requires
        session is Connecting || session is Writing || session is Reading || (session
            is ClosingWrite && event is TimedOut),
        event is Failed || event is TimedOut,
    ensures
        next(session, event) == fail(),
{
}

/// Only a response that was read ends an exchange in success, and it is
/// handed out as it came.
pub proof fn lemma_success_is_the_response_read(
    before: TransportSessionView,
    read: TransportEventView,
    closed: TransportEventView,
    response: Seq<u8>,
)
    requires
        next(next(before, read).session, closed).action == (TransportActionView::Finish {
            outcome: Ok(response),
        }),
    ensures
        before is Reading,
        read == TransportEventView::Received(response),
{
}

/// When every action up to the reading is carried out, the exchange ends
/// with the bytes that were read, whether or not the two directions could be
/// closed.
pub proof fn lemma_exchange_delivers_response(
    request: Seq<u8>,
    response: Seq<u8>,
    write_closed: TransportEventView,
    read_closed: TransportEventView,
)
    requires
        write_closed is Completed || write_closed is Failed,
    ensures
        next(
            TransportSessionView::Connecting { request },
            TransportEventView::Completed,
        ).action == (TransportActionView::Write { bytes: request }),
        outcome_after(
            TransportSessionView::Connecting { request },
            seq![
                TransportEventView::Completed,
                TransportEventView::Completed,
                write_closed,
                TransportEventView::Received(response),
                read_closed,
            ],
        ) == Some(Ok::<Seq<u8>, TransportError>(response)),
{
    let events = seq![
        TransportEventView::Completed,
        TransportEventView::Completed,
        write_closed,
        TransportEventView::Received(response),
        read_closed,
    ];
    let e1 = events.drop_first();
    let e2 = e1.drop_first();
    let e3 = e2.drop_first();
    let e4 = e3.drop_first();
    assert(outcome_after(TransportSessionView::ClosingRead { response }, e4) == Some(
        Ok::<Seq<u8>, TransportError>(response),
    ));
    assert(outcome_after(TransportSessionView::Reading, e3) == Some(
        Ok::<Seq<u8>, TransportError>(response),
    ));
    assert(outcome_after(TransportSessionView::ClosingWrite, e2) == Some(
        Ok::<Seq<u8>, TransportError>(response),
    ));
    assert(outcome_after(TransportSessionView::Writing, e1) == Some(
        Ok::<Seq<u8>, TransportError>(response),
    ));
}

} // verus!
