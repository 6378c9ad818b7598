//! The server's side of a connection: one handler per peer, which admits the
//! peer and answers on each channel it opens.
use std::collections::HashSet;
use vstd::prelude::*;
use vstd::string::StringSliceAdditionalSpecFns;
use vstd::utf8::valid_utf8;
use crate::bytes::append_bytes;
use crate::auth::{auth_verdict, decide_auth, AuthVerdict};

verus! {

broadcast use vstd::std_specs::hash::group_hash_axioms;

/// Marker put in front of every payload the server echoes back.
pub const RESPONSE_PREFIX: &'static str = "Server processed: ";

/// The bytes the server sends back for a text payload.
pub open spec fn response_for(data: Seq<u8>) -> Seq<u8> {
    RESPONSE_PREFIX.spec_bytes() + data
}

/// Why a channel event was not answered. Both stay local to the event.
#[derive(Clone, Copy, Debug, PartialEq, Eq, Structural)]
pub enum ResponderError {
    /// The payload is not valid UTF-8 text.
    EncodingError,
    /// The channel is not open: never opened, or already closed.
    UnknownChannel,
}

/// Relies on std::str::from_utf8, which succeeds exactly on valid UTF-8.
#[verifier::external_body]
fn is_text(data: &[u8]) -> (r: bool)
    ensures
        r == valid_utf8(data@),
{
    std::str::from_utf8(data).is_ok()
}

/// The handler of one inbound connection. It tracks which of the
/// connection's channels are open; no state is shared between connections.
pub struct ServerHandler {
    open: HashSet<u32>,
}

impl View for ServerHandler {
    type V = Set<u32>;

    /// The identifiers of the open channels.
    closed spec fn view(&self) -> Set<u32> {
        self.open@
    }
}

/// Hands out a fresh handler for every inbound connection.
pub struct Server;

impl Server {
    /// Creates the handler of a new connection, with no channel open.
    pub fn new_client(&mut self) -> (r: ServerHandler)
        ensures
            r@ == Set::<u32>::empty(),
    {
        ServerHandler { open: HashSet::new() }
    }
}

impl ServerHandler {
    /// Evaluates a public-key authentication attempt. The verdict depends on
    /// the user name and the key alone, never on the handler's channels.
    pub fn auth_publickey(&self, user: &str, public_key: &[u8]) -> (r: AuthVerdict)
        ensures
            r == auth_verdict(user@, public_key@),
    {
        decide_auth(user, public_key)
    }

    /// Acknowledges a session channel opened by the peer. The channel is open
    /// from then on.
    pub fn channel_open_session(&mut self, channel: u32) -> (r: bool)
        ensures
            r,
            final(self)@ == old(self)@.insert(channel),
    {
        self.open.insert(channel);
        true
    }

    /// Whether the channel is open.
    pub fn is_open(&self, channel: u32) -> (r: bool)
        ensures
            r == self@.contains(channel),
    {
        self.open.contains(&channel)
    }

    /// Closes a channel at the peer's request. A close of a channel that is
    /// not open is a protocol violation; it is reported and changes nothing.
    pub fn channel_close(&mut self, channel: u32) -> (r: Result<(), ResponderError>)
        ensures
            old(self)@.contains(channel) ==> r is Ok && final(self)@ == old(self)@.remove(channel),
            !old(self)@.contains(channel) ==> r == Err::<(), ResponderError>(
                ResponderError::UnknownChannel,
            ) && final(self)@ == old(self)@,
    {
        if self.open.contains(&channel) {
            self.open.remove(&channel);
            proof {
                assert(final(self)@ =~= old(self)@.remove(channel));
            }
            Ok(())
        } else {
            Err(ResponderError::UnknownChannel)
        }
    }

    /// Answers data received on a channel. On an open channel a text payload
    /// is answered with the prefixed payload; anything else gets no answer, and
    /// the channel's state is left as it was.
    pub fn data(&self, channel: u32, data: &[u8]) -> (r: Result<Vec<u8>, ResponderError>)
        ensures
            r is Ok <==> self@.contains(channel) && valid_utf8(data@),
            r is Ok ==> r->Ok_0@ == response_for(data@),
            !self@.contains(channel) ==> r == Err::<Vec<u8>, ResponderError>(
                ResponderError::UnknownChannel,
            ),
            self@.contains(channel) && !valid_utf8(data@) ==> r == Err::<Vec<u8>, ResponderError>(
                ResponderError::EncodingError,
            ),
    {
        if !self.open.contains(&channel) {
            return Err(ResponderError::UnknownChannel);
        }
        if !is_text(data) {
            return Err(ResponderError::EncodingError);
        }
        let mut response: Vec<u8> = Vec::new();
        append_bytes(&mut response, RESPONSE_PREFIX.as_bytes());
        append_bytes(&mut response, data);
        Ok(response)
    }
}

} // verus!
