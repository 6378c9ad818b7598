use ssh_roundtrip::auth::{decide_auth, AuthVerdict, ClientHandler};
use ssh_roundtrip::responder::{ResponderError, Server, RESPONSE_PREFIX};

#[test]
fn open_channel_answers_text_with_prefix() {
    let mut server = Server;
    let mut handler = server.new_client();
    assert!(handler.channel_open_session(0));
    assert_eq!(handler.data(0, b"foo").unwrap(), b"Server processed: foo".to_vec());
}

#[test]
fn empty_payload_gets_bare_prefix() {
    let mut handler = Server.new_client();
    handler.channel_open_session(3);
    assert_eq!(handler.data(3, b"").unwrap(), RESPONSE_PREFIX.as_bytes().to_vec());
}

#[test]
fn multibyte_text_is_echoed_unchanged() {
    let mut handler = Server.new_client();
    handler.channel_open_session(1);
    let payload = "héllo ✓".as_bytes();
    let mut expected = b"Server processed: ".to_vec();
    expected.extend_from_slice(payload);
    assert_eq!(handler.data(1, payload).unwrap(), expected);
}

#[test]
fn malformed_payload_is_rejected_and_channel_stays_open() {
    let mut handler = Server.new_client();
    handler.channel_open_session(7);
    assert_eq!(handler.data(7, &[0x66, 0xff, 0xfe]), Err(ResponderError::EncodingError));
    assert!(handler.is_open(7));
    assert_eq!(handler.data(7, b"bar").unwrap(), b"Server processed: bar".to_vec());
}

#[test]
fn truncated_multibyte_sequence_is_not_text() {
    let mut handler = Server.new_client();
    handler.channel_open_session(2);
    assert_eq!(handler.data(2, &[0xe2, 0x9c]), Err(ResponderError::EncodingError));
}

#[test]
fn data_before_open_gets_no_answer() {
    let handler = Server.new_client();
    assert_eq!(handler.data(0, b"foo"), Err(ResponderError::UnknownChannel));
}

#[test]
fn data_after_close_gets_no_answer() {
    let mut handler = Server.new_client();
    handler.channel_open_session(4);
    assert_eq!(handler.channel_close(4), Ok(()));
    assert!(!handler.is_open(4));
    assert_eq!(handler.data(4, b"foo"), Err(ResponderError::UnknownChannel));
}

#[test]
fn closing_an_unknown_channel_is_reported() {
    let mut handler = Server.new_client();
    handler.channel_open_session(5);
    assert_eq!(handler.channel_close(6), Err(ResponderError::UnknownChannel));
    assert!(handler.is_open(5));
    assert_eq!(handler.channel_close(5), Ok(()));
    assert_eq!(handler.channel_close(5), Err(ResponderError::UnknownChannel));
}

#[test]
fn channels_of_one_connection_are_independent() {
    let mut handler = Server.new_client();
    handler.channel_open_session(1);
    handler.channel_open_session(2);
    handler.channel_close(1).unwrap();
    assert!(handler.is_open(2));
    assert_eq!(handler.data(2, b"x").unwrap(), b"Server processed: x".to_vec());
}

#[test]
fn connections_share_no_channel_state() {
    let mut server = Server;
    let mut first = server.new_client();
    let second = server.new_client();
    first.channel_open_session(0);
    assert!(!second.is_open(0));
    assert_eq!(second.data(0, b"foo"), Err(ResponderError::UnknownChannel));
}

#[test]
fn auth_verdict_is_the_same_on_every_evaluation() {
    let mut handler = Server.new_client();
    let key = [0u8, 0, 0, 11, 115, 115, 104, 45, 101, 100, 50, 53, 53, 49, 57];
    let first = handler.auth_publickey("username", &key);
    handler.channel_open_session(9);
    let second = handler.auth_publickey("username", &key);
    assert_eq!(first, AuthVerdict::Accept);
    assert_eq!(first, second);
    assert_eq!(decide_auth("username", &key), first);
}

#[test]
fn client_trusts_presented_host_key() {
    let handler = ClientHandler { user: "username".to_string() };
    assert!(handler.check_server_key(&[1, 2, 3]));
    assert!(handler.check_server_key(&[]));
}
