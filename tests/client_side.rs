use ssh_roundtrip::responder::Server;
use ssh_roundtrip::session::{
    ChannelEvent, Negotiation, Phase, Receive, Session, SessionError,
};

fn authenticated() -> Session {
    let mut s = Session::new();
    s.connect().unwrap();
    s.on_negotiation(Negotiation::Established).unwrap();
    s.on_auth(true).unwrap();
    s
}

fn open_with(payload: &[u8]) -> Session {
    let mut s = authenticated();
    s.send(payload).unwrap();
    assert_eq!(s.on_channel_open(true).unwrap(), payload.to_vec());
    s
}

#[test]
fn end_to_end_round_trip() {
    let mut server = Server;
    let mut handler = server.new_client();
    let mut client = authenticated();
    assert_eq!(client.phase(), Phase::Authenticated);

    client.send(b"foo").unwrap();
    assert!(handler.channel_open_session(0));
    let written = client.on_channel_open(true).unwrap();
    let reply = handler.data(0, &written).unwrap();
    assert_eq!(client.on_event(ChannelEvent::DataReceived(reply)), Ok(Receive::Continue));
    assert_eq!(client.on_event(ChannelEvent::StreamEnd), Ok(Receive::Finished));

    let outcome = client.outcome();
    assert_eq!(outcome.data, b"Server processed: foo".to_vec());
    assert_eq!(outcome.exit_status, None);
    assert!(client.close());
    assert_eq!(client.phase(), Phase::Closed);
}

#[test]
fn chunks_are_joined_in_order_and_stop_at_exit_status() {
    let mut s = open_with(b"q");
    assert_eq!(s.on_event(ChannelEvent::DataReceived(b"ab".to_vec())), Ok(Receive::Continue));
    assert_eq!(s.on_event(ChannelEvent::Other), Ok(Receive::Continue));
    assert_eq!(s.on_event(ChannelEvent::DataReceived(b"cd".to_vec())), Ok(Receive::Continue));
    assert_eq!(s.on_event(ChannelEvent::DataReceived(b"e".to_vec())), Ok(Receive::Continue));
    assert_eq!(s.on_event(ChannelEvent::ExitStatus(3)), Ok(Receive::Finished));
    assert_eq!(
        s.on_event(ChannelEvent::DataReceived(b"late".to_vec())),
        Err(SessionError::InvalidState)
    );
    let outcome = s.outcome();
    assert_eq!(outcome.data, b"abcde".to_vec());
    assert_eq!(outcome.exit_status, Some(3));
    assert_eq!(s.phase(), Phase::Finished);
}

#[test]
fn close_event_ends_loop_without_exit_code() {
    let mut s = open_with(b"q");
    s.on_event(ChannelEvent::DataReceived(b"x".to_vec())).unwrap();
    assert_eq!(s.on_event(ChannelEvent::Closed), Ok(Receive::Finished));
    let outcome = s.outcome();
    assert_eq!(outcome.data, b"x".to_vec());
    assert_eq!(outcome.exit_status, None);
}

#[test]
fn unreachable_peer_fails_before_authentication() {
    let mut s = Session::new();
    s.connect().unwrap();
    assert_eq!(s.on_negotiation(Negotiation::Unreachable), Err(SessionError::ConnectionError));
    assert_eq!(s.phase(), Phase::Closed);
    assert_eq!(s.on_auth(true), Err(SessionError::InvalidState));
    assert_eq!(s.phase(), Phase::Closed);
    assert!(!s.close());
}

#[test]
fn unusable_key_fails_with_key_load_error() {
    let mut s = Session::new();
    s.connect().unwrap();
    assert_eq!(s.on_negotiation(Negotiation::KeyLoadFailed), Err(SessionError::KeyLoadError));
    assert_eq!(s.phase(), Phase::Closed);
}

#[test]
fn rejected_key_fails_and_opens_no_channel() {
    let mut s = Session::new();
    s.connect().unwrap();
    s.on_negotiation(Negotiation::Established).unwrap();
    assert_eq!(s.on_auth(false), Err(SessionError::AuthenticationFailedError));
    assert_eq!(s.send(b"foo"), Err(SessionError::InvalidState));
    assert_eq!(s.on_channel_open(true), Err(SessionError::InvalidState));
    assert_eq!(s.phase(), Phase::Closed);
}

#[test]
fn refused_channel_fails_the_send() {
    let mut s = authenticated();
    s.send(b"foo").unwrap();
    assert_eq!(s.on_channel_open(false), Err(SessionError::ChannelOpenError));
    assert_eq!(s.phase(), Phase::Authenticated);
}

#[test]
fn lost_connection_ends_the_wait() {
    let mut s = open_with(b"foo");
    s.on_event(ChannelEvent::DataReceived(b"par".to_vec())).unwrap();
    assert_eq!(s.on_connection_lost(), SessionError::ConnectionLostError);
    assert_eq!(s.phase(), Phase::Closed);
    assert_eq!(s.on_event(ChannelEvent::DataReceived(b"t".to_vec())), Err(SessionError::InvalidState));
}

#[test]
fn steps_out_of_order_are_refused() {
    let mut s = Session::new();
    assert_eq!(s.send(b"foo"), Err(SessionError::InvalidState));
    assert_eq!(s.on_negotiation(Negotiation::Established), Err(SessionError::InvalidState));
    assert_eq!(s.on_event(ChannelEvent::Other), Err(SessionError::InvalidState));
    s.connect().unwrap();
    assert_eq!(s.connect(), Err(SessionError::InvalidState));
    assert_eq!(s.on_auth(true), Err(SessionError::InvalidState));
    assert_eq!(s.phase(), Phase::Connecting);
}

#[test]
fn second_close_sends_no_notice() {
    let mut s = authenticated();
    assert!(s.close());
    assert!(!s.close());
    assert_eq!(s.phase(), Phase::Closed);
}

#[test]
fn close_before_connecting_sends_no_notice() {
    let mut s = Session::new();
    assert!(!s.close());
}
