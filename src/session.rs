//! The client's side: one outbound connection driven through a single
//! request/response exchange.
//!
//! The transport engine does the waiting; this module makes the decisions.
//! Each method takes what the engine just reported and says what to do next,
//! so the driver performs an action, awaits its outcome and hands it back.
use vstd::prelude::*;
use crate::bytes::append_bytes;

verus! {

/// Where a client session stands.
#[derive(Clone, Copy, Debug, PartialEq, Eq, Structural)]
pub enum Phase {
    /// Nothing started yet.
    Disconnected,
    /// Loading the identity key and negotiating the transport.
    Connecting,
    /// Transport negotiated; public-key authentication is due.
    Negotiated,
    /// Authenticated; a round trip may start.
    Authenticated,
    /// A channel was requested and is not acknowledged yet.
    ChannelOpening,
    /// The channel is open: the payload is written and events are awaited.
    ChannelOpen,
    /// The round trip ended; only closing remains.
    Finished,
    /// The connection is gone, or was never made.
    Closed,
}

/// Failures a client session reports to its caller. None is retried.
#[derive(Clone, Copy, Debug, PartialEq, Eq, Structural)]
pub enum SessionError {
    /// The identity key could not be read or parsed.
    KeyLoadError,
    /// The peer could not be reached, or negotiation with it failed.
    ConnectionError,
    /// The peer rejected the public key.
    AuthenticationFailedError,
    /// The peer refused to open a channel.
    ChannelOpenError,
    /// The connection dropped while waiting on the channel.
    ConnectionLostError,
    /// The step does not fit the session's phase.
    InvalidState,
}

/// What came of loading the key and negotiating the transport.
#[derive(Clone, Copy, Debug, PartialEq, Eq, Structural)]
pub enum Negotiation {
    Established,
    KeyLoadFailed,
    Unreachable,
}

/// An event delivered while waiting on the open channel.
#[derive(Debug)]
pub enum ChannelEvent {
    DataReceived(Vec<u8>),
    ExitStatus(u32),
    Closed,
    Other,
    /// The event stream ended.
    StreamEnd,
}

/// Whether the receive loop goes on after an event.
#[derive(Clone, Copy, Debug, PartialEq, Eq, Structural)]
pub enum Receive {
    Continue,
    Finished,
}

/// The result of a round trip: the bytes received, in arrival order, and the
/// exit code if the peer sent one.
#[derive(Debug)]
pub struct SessionOutcome {
    pub data: Vec<u8>,
    pub exit_status: Option<u32>,
}

/// The abstract state of a session.
pub struct SessionView {
    pub phase: Phase,
    /// The payload of the current round trip.
    pub pending: Seq<u8>,
    pub received: Seq<u8>,
    pub exit_status: Option<u32>,
}

/// A client session: at most one connection, carrying one round trip.
pub struct Session {
    phase: Phase,
    pending: Vec<u8>,
    received: Vec<u8>,
    exit_status: Option<u32>,
}

impl View for Session {
    type V = SessionView;

    closed spec fn view(&self) -> SessionView {
        SessionView {
            phase: self.phase,
            pending: self.pending@,
            received: self.received@,
            exit_status: self.exit_status,
        }
    }
}

pub open spec fn initial_session() -> SessionView {
    SessionView { phase: Phase::Disconnected, pending: seq![], received: seq![], exit_status: None }
}

pub open spec fn with_phase(s: SessionView, p: Phase) -> SessionView {
    SessionView { phase: p, ..s }
}

pub open spec fn after_connect(s: SessionView) -> SessionView {
    if s.phase == Phase::Disconnected {
        with_phase(s, Phase::Connecting)
    } else {
        s
    }
}

pub open spec fn connect_result(s: SessionView) -> Result<(), SessionError> {
    if s.phase == Phase::Disconnected {
        Ok(())
    } else {
        Err(SessionError::InvalidState)
    }
}

pub open spec fn after_negotiation(s: SessionView, n: Negotiation) -> SessionView {
    if s.phase != Phase::Connecting {
        s
    } else if n == Negotiation::Established {
        with_phase(s, Phase::Negotiated)
    } else {
        with_phase(s, Phase::Closed)
    }
}

pub open spec fn negotiation_result(s: SessionView, n: Negotiation) -> Result<(), SessionError> {
    if s.phase != Phase::Connecting {
        Err(SessionError::InvalidState)
    } else {
        match n {
            Negotiation::Established => Ok(()),
            Negotiation::KeyLoadFailed => Err(SessionError::KeyLoadError),
            Negotiation::Unreachable => Err(SessionError::ConnectionError),
        }
    }
}

pub open spec fn after_auth(s: SessionView, accepted: bool) -> SessionView {
    if s.phase != Phase::Negotiated {
        s
    } else if accepted {
        with_phase(s, Phase::Authenticated)
    } else {
        with_phase(s, Phase::Closed)
    }
}

pub open spec fn auth_result(s: SessionView, accepted: bool) -> Result<(), SessionError> {
    if s.phase != Phase::Negotiated {
        Err(SessionError::InvalidState)
    } else if accepted {
        Ok(())
    } else {
        Err(SessionError::AuthenticationFailedError)
    }
}

pub open spec fn after_send(s: SessionView, payload: Seq<u8>) -> SessionView {
    if s.phase == Phase::Authenticated {
        SessionView {
            phase: Phase::ChannelOpening,
            pending: payload,
            received: seq![],
            exit_status: None,
        }
    } else {
        s
    }
}

pub open spec fn send_result(s: SessionView) -> Result<(), SessionError> {
    if s.phase == Phase::Authenticated {
        Ok(())
    } else {
        Err(SessionError::InvalidState)
    }
}

pub open spec fn after_channel_open(s: SessionView, opened: bool) -> SessionView {
    if s.phase != Phase::ChannelOpening {
        s
    } else if opened {
        with_phase(s, Phase::ChannelOpen)
    } else {
        with_phase(s, Phase::Authenticated)
    }
}

pub open spec fn is_terminal(e: ChannelEvent) -> bool {
    match e {
        ChannelEvent::ExitStatus(_) | ChannelEvent::Closed | ChannelEvent::StreamEnd => true,
        _ => false,
    }
}

/// The effect of one channel event on a session with an open channel.
pub open spec fn receive_step(s: SessionView, e: ChannelEvent) -> SessionView {
    if s.phase != Phase::ChannelOpen {
        s
    } else {
        match e {
            ChannelEvent::DataReceived(d) => SessionView { received: s.received + d@, ..s },
            ChannelEvent::ExitStatus(code) => SessionView {
                phase: Phase::Finished,
                exit_status: Some(code),
                ..s
            },
            ChannelEvent::Closed | ChannelEvent::StreamEnd => with_phase(s, Phase::Finished),
            ChannelEvent::Other => s,
        }
    }
}

pub open spec fn receive_result(s: SessionView, e: ChannelEvent) -> Result<Receive, SessionError> {
    if s.phase != Phase::ChannelOpen {
        Err(SessionError::InvalidState)
    } else if is_terminal(e) {
        Ok(Receive::Finished)
    } else {
        Ok(Receive::Continue)
    }
}

/// The session after a run of channel events, handed over in order.
pub open spec fn receive_all(s: SessionView, events: Seq<ChannelEvent>) -> SessionView
    decreases events.len(),
{
    if events.len() == 0 {
        s
    } else {
        receive_all(receive_step(s, events[0]), events.drop_first())
    }
}

/// The payloads of the data events in a run, concatenated in order.
pub open spec fn data_of(events: Seq<ChannelEvent>) -> Seq<u8>
    decreases events.len(),
{
    if events.len() == 0 {
        seq![]
    } else {
        let rest = data_of(events.drop_first());
        match events[0] {
            ChannelEvent::DataReceived(d) => d@ + rest,
            _ => rest,
        }
    }
}

/// Whether closing in this phase must send a disconnect notice to the peer.
pub open spec fn holds_connection(p: Phase) -> bool {
    !(p == Phase::Disconnected || p == Phase::Connecting || p == Phase::Closed)
}

pub open spec fn after_close(s: SessionView) -> SessionView {
    with_phase(s, Phase::Closed)
}

impl Session {
    /// A session that has not connected yet.
    pub fn new() -> (r: Session)
        ensures
            r@ == initial_session(),
    {
        Session { phase: Phase::Disconnected, pending: Vec::new(), received: Vec::new(), exit_status: None }
    }

    pub fn phase(&self) -> (r: Phase)
        ensures
            r == self@.phase,
    {
        self.phase
    }

    /// Starts connecting. On `Ok` the driver loads the identity key and
    /// negotiates the transport, trusting host keys through the client's
    /// policy, then reports with `on_negotiation`.
    pub fn connect(&mut self) -> (r: Result<(), SessionError>)
        ensures
            final(self)@ == after_connect(old(self)@),
            r == connect_result(old(self)@),
    {
        if self.phase == Phase::Disconnected {
            self.phase = Phase::Connecting;
            Ok(())
        } else {
            Err(SessionError::InvalidState)
        }
    }

    /// Takes the outcome of key loading and negotiation. On `Ok` the driver
    /// authenticates with the public key and reports with `on_auth`; on a
    /// failure no authentication is attempted.
    pub fn on_negotiation(&mut self, n: Negotiation) -> (r: Result<(), SessionError>)
        ensures
            final(self)@ == after_negotiation(old(self)@, n),
            r == negotiation_result(old(self)@, n),
    {
        if self.phase != Phase::Connecting {
            return Err(SessionError::InvalidState);
        }
        match n {
            Negotiation::Established => {
                self.phase = Phase::Negotiated;
                Ok(())
            },
            Negotiation::KeyLoadFailed => {
                self.phase = Phase::Closed;
                Err(SessionError::KeyLoadError)
            },
            Negotiation::Unreachable => {
                self.phase = Phase::Closed;
                Err(SessionError::ConnectionError)
            },
        }
    }

    /// Takes the peer's answer to public-key authentication. A rejection ends
    /// the session for good.
    pub fn on_auth(&mut self, accepted: bool) -> (r: Result<(), SessionError>)
        ensures
            final(self)@ == after_auth(old(self)@, accepted),
            r == auth_result(old(self)@, accepted),
    {
        if self.phase != Phase::Negotiated {
            Err(SessionError::InvalidState)
        } else if accepted {
            self.phase = Phase::Authenticated;
            Ok(())
        } else {
            self.phase = Phase::Closed;
            Err(SessionError::AuthenticationFailedError)
        }
    }

    /// Starts a round trip with `payload`. On `Ok` the driver opens a channel
    /// and reports with `on_channel_open`.
    pub fn send(&mut self, payload: &[u8]) -> (r: Result<(), SessionError>)
        ensures
            final(self)@ == after_send(old(self)@, payload@),
            r == send_result(old(self)@),
    {
        if self.phase != Phase::Authenticated {
            return Err(SessionError::InvalidState);
        }
        let mut pending: Vec<u8> = Vec::new();
        append_bytes(&mut pending, payload);
        self.pending = pending;
        self.received = Vec::new();
        self.exit_status = None;
        self.phase = Phase::ChannelOpening;
        proof {
            assert(self.pending@ =~= payload@);
            assert(self.received@ =~= Seq::<u8>::empty());
        }
        Ok(())
    }

    /// Takes whether the peer opened the channel. On `Ok` it returns the
    /// payload that the driver writes to the channel before it waits for
    /// events and hands each to `on_event`.
    pub fn on_channel_open(&mut self, opened: bool) -> (r: Result<Vec<u8>, SessionError>)
        ensures
            final(self)@ == after_channel_open(old(self)@, opened),
            r is Ok <==> old(self)@.phase == Phase::ChannelOpening && opened,
            r is Ok ==> r->Ok_0@ == old(self)@.pending,
            old(self)@.phase != Phase::ChannelOpening ==> r == Err::<Vec<u8>, SessionError>(
                SessionError::InvalidState,
            ),
            old(self)@.phase == Phase::ChannelOpening && !opened ==> r == Err::<Vec<u8>, SessionError>(
                SessionError::ChannelOpenError,
            ),
    {
        if self.phase != Phase::ChannelOpening {
            return Err(SessionError::InvalidState);
        }
        if !opened {
            self.phase = Phase::Authenticated;
            return Err(SessionError::ChannelOpenError);
        }
        self.phase = Phase::ChannelOpen;
        let mut out: Vec<u8> = Vec::new();
        append_bytes(&mut out, self.pending.as_slice());
        Ok(out)
    }

    /// Takes the next event of the open channel. Data is appended to what was
    /// received; an exit status, a close or the end of the stream ends the loop.
    pub fn on_event(&mut self, event: ChannelEvent) -> (r: Result<Receive, SessionError>)
        ensures
            final(self)@ == receive_step(old(self)@, event),
            r == receive_result(old(self)@, event),
    {
        if self.phase != Phase::ChannelOpen {
            return Err(SessionError::InvalidState);
        }
        match event {
            ChannelEvent::DataReceived(d) => {
                append_bytes(&mut self.received, d.as_slice());
                Ok(Receive::Continue)
            },
            ChannelEvent::ExitStatus(code) => {
                self.exit_status = Some(code);
                self.phase = Phase::Finished;
                Ok(Receive::Finished)
            },
            ChannelEvent::Closed | ChannelEvent::StreamEnd => {
                self.phase = Phase::Finished;
                Ok(Receive::Finished)
            },
            ChannelEvent::Other => Ok(Receive::Continue),
        }
    }

    /// The connection dropped: the session ends and the loss is reported.
    pub fn on_connection_lost(&mut self) -> (r: SessionError)
        ensures
            final(self)@ == after_close(old(self)@),
            r == SessionError::ConnectionLostError,
    {
        self.phase = Phase::Closed;
        SessionError::ConnectionLostError
    }

    /// What the current round trip has gathered so far.
    pub fn outcome(&self) -> (r: SessionOutcome)
        ensures
            r.data@ == self@.received,
            r.exit_status == self@.exit_status,
    {
        let mut data: Vec<u8> = Vec::new();
        append_bytes(&mut data, self.received.as_slice());
        proof {
            assert(data@ =~= self.received@);
        }
        SessionOutcome { data, exit_status: self.exit_status }
    }

    /// Ends the session. Returns whether the driver must send the peer a
    /// disconnect notice; a second close sends none.
    pub fn close(&mut self) -> (r: bool)
        ensures
            final(self)@ == after_close(old(self)@),
            r == holds_connection(old(self)@.phase),
    {
        let notify = match self.phase {
            Phase::Disconnected | Phase::Connecting | Phase::Closed => false,
            _ => true,
        };
        self.phase = Phase::Closed;
        notify
    }
}

} // verus!
