//! Properties that hold across several steps of a session.
use vstd::prelude::*;
use crate::auth::auth_verdict;
use crate::responder::response_for;
use crate::session::{
    after_auth, after_channel_open, after_close, after_connect, after_negotiation, after_send,
    auth_result, connect_result, data_of, holds_connection, initial_session, is_terminal,
    negotiation_result, receive_all, receive_step, send_result, ChannelEvent, Negotiation, Phase,
    SessionError, SessionView,
};

verus! {

/// Once a session has left the open-channel phase, no channel event changes it.
pub proof fn events_outside_open_channel_change_nothing(s: SessionView, events: Seq<ChannelEvent>)
    requires
        s.phase != Phase::ChannelOpen,
    ensures
        receive_all(s, events) == s,
    decreases events.len(),
{
    if events.len() > 0 {
        events_outside_open_channel_change_nothing(s, events.drop_first());
    }
}

/// Events are taken in the order they arrive, up to the first terminal one:
/// when the events before position `n` all carry data and the event at `n`
/// ends the loop, the session holds those payloads concatenated in order, the
/// exit code if the last event was an exit status, and nothing of what came
/// after.
pub proof fn receive_keeps_order_until_terminal(s: SessionView, events: Seq<ChannelEvent>, n: int)
    requires
        s.phase == Phase::ChannelOpen,
        0 <= n < events.len(),
        forall|i: int| 0 <= i < n ==> events[i] is DataReceived,
        is_terminal(events[n]),
    ensures
        receive_all(s, events) == (SessionView {
            phase: Phase::Finished,
            pending: s.pending,
            received: s.received + data_of(events.take(n)),
            exit_status: match events[n] {
                ChannelEvent::ExitStatus(code) => Some(code),
                _ => s.exit_status,
            },
        }),
    decreases n,
{
    let first = receive_step(s, events[0]);
    if n == 0 {
        events_outside_open_channel_change_nothing(first, events.drop_first());
        assert(data_of(events.take(0)) =~= Seq::<u8>::empty());
        assert(s.received + Seq::<u8>::empty() =~= s.received);
    } else {
        let rest = events.drop_first();
        assert forall|i: int| 0 <= i < n - 1 implies rest[i] is DataReceived by {
            assert(rest[i] == events[i + 1]);
        }
        receive_keeps_order_until_terminal(first, rest, n - 1);
        let d = events[0]->DataReceived_0;
        assert(events.take(n).drop_first() =~= rest.take(n - 1));
        assert(data_of(events.take(n)) == d@ + data_of(rest.take(n - 1)));
        assert(s.received + d@ + data_of(rest.take(n - 1)) =~= s.received + (d@ + data_of(
            rest.take(n - 1),
        )));
    }
}

/// A fresh session that connects, authenticates and sends `payload` to a
/// server that answers with the prefixed payload and then ends the channel
/// ends up holding exactly the prefixed payload.
pub proof fn round_trip_yields_prefixed_payload(payload: Seq<u8>, events: Seq<ChannelEvent>)
    requires
        events.len() >= 2,
        events[0] matches ChannelEvent::DataReceived(d) && d@ == response_for(payload),
        is_terminal(events[1]),
    ensures
        ({
            let connected = after_auth(
                after_negotiation(after_connect(initial_session()), Negotiation::Established),
                true,
            );
            let open = after_channel_open(after_send(connected, payload), true);
            &&& connected.phase == Phase::Authenticated
            &&& open.phase == Phase::ChannelOpen
            &&& open.pending == payload
            &&& receive_all(open, events).phase == Phase::Finished
            &&& receive_all(open, events).received == response_for(payload)
        }),
{
    let connected = after_auth(
        after_negotiation(after_connect(initial_session()), Negotiation::Established),
        true,
    );
    let open = after_channel_open(after_send(connected, payload), true);
    receive_keeps_order_until_terminal(open, events, 1);
    let d = events[0]->DataReceived_0;
    assert(events.take(1)[0] == events[0]);
    assert(events.take(1).drop_first() =~= Seq::<ChannelEvent>::empty());
    assert(data_of(Seq::<ChannelEvent>::empty()) == Seq::<u8>::empty());
    assert(d@ + Seq::<u8>::empty() =~= d@);
    assert(data_of(events.take(1)) =~= d@);
    assert(open.received + d@ =~= d@);
}

/// A closed session stays closed whatever is asked of it or reported to it:
/// it never authenticates, never opens a channel and never receives.
pub proof fn closed_session_is_final(
    c: SessionView,
    n: Negotiation,
    accepted: bool,
    opened: bool,
    payload: Seq<u8>,
    events: Seq<ChannelEvent>,
)
    requires
        c.phase == Phase::Closed,
    ensures
        after_connect(c) == c,
        connect_result(c) == Err::<(), SessionError>(SessionError::InvalidState),
        after_negotiation(c, n) == c,
        after_auth(c, accepted) == c,
        auth_result(c, accepted) == Err::<(), SessionError>(SessionError::InvalidState),
        after_send(c, payload) == c,
        send_result(c) == Err::<(), SessionError>(SessionError::InvalidState),
        after_channel_open(c, opened) == c,
        receive_all(c, events) == c,
        after_close(c) == c,
        !holds_connection(c.phase),
{
    events_outside_open_channel_change_nothing(c, events);
}

/// A peer that cannot be reached fails the connection with a connection-level
/// error, and no authentication is attempted afterwards.
pub proof fn unreachable_peer_fails_before_auth(s: SessionView, accepted: bool)
    requires
        s.phase == Phase::Connecting,
    ensures
        negotiation_result(s, Negotiation::Unreachable) == Err::<(), SessionError>(
            SessionError::ConnectionError,
        ),
        after_negotiation(s, Negotiation::Unreachable).phase == Phase::Closed,
        auth_result(after_negotiation(s, Negotiation::Unreachable), accepted) == Err::<
            (),
            SessionError,
        >(SessionError::InvalidState),
        after_auth(after_negotiation(s, Negotiation::Unreachable), accepted) == after_negotiation(
            s,
            Negotiation::Unreachable,
        ),
{
}

/// A rejected key fails the connection with an authentication error, and the
/// session can then open no channel.
pub proof fn rejected_key_opens_no_channel(s: SessionView, payload: Seq<u8>, opened: bool)
    requires
        s.phase == Phase::Negotiated,
    ensures
        auth_result(s, false) == Err::<(), SessionError>(SessionError::AuthenticationFailedError),
        after_auth(s, false).phase == Phase::Closed,
        send_result(after_auth(s, false)) == Err::<(), SessionError>(SessionError::InvalidState),
        after_channel_open(after_send(after_auth(s, false), payload), opened).phase
            == Phase::Closed,
{
}

/// The server's verdict on a (user, key) pair is the same on every evaluation.
pub proof fn auth_verdict_is_stable(user: Seq<char>, key: Seq<u8>, user2: Seq<char>, key2: Seq<u8>)
    requires
        user == user2,
        key == key2,
    ensures
        auth_verdict(user, key) == auth_verdict(user2, key2),
{
}

} // verus!
