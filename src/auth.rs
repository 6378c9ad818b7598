//! Credential decisions on both ends of a connection.
//!
//! Both policies here are permissive defaults: the server admits every public
//! key and the client trusts every host key. They are the slots where a real
//! deployment plugs in an allow-list or a known-hosts check.
use vstd::prelude::*;

verus! {

/// Outcome of evaluating a credential offered by a peer.
#[derive(Clone, Copy, Debug, PartialEq, Eq, Structural)]
pub enum AuthVerdict {
    Accept,
    Reject,
    /// Part of the engine's protocol; this library never decides it.
    Partial,
}

/// The verdict of the server's policy on a user name and the wire encoding
/// of the public key offered for it.
pub open spec fn auth_verdict(user: Seq<char>, key: Seq<u8>) -> AuthVerdict {
    AuthVerdict::Accept
}

/// Whether the client's policy trusts a host key, given its wire encoding.
pub open spec fn trusts_host_key(key: Seq<u8>) -> bool {
    true
}

/// Evaluates one public-key authentication attempt.
pub fn decide_auth(user: &str, key: &[u8]) -> (r: AuthVerdict)
    ensures
        r == auth_verdict(user@, key@),
{
    AuthVerdict::Accept
}

/// Host-key check made by a client while it negotiates a connection.
pub struct ClientHandler {
    pub user: String,
}

impl ClientHandler {
    /// Decides whether the presented host key is trusted.
    pub fn check_server_key(&self, server_public_key: &[u8]) -> (r: bool)
        ensures
            r == trusts_host_key(server_public_key@),
    {
        true
    }
}

} // verus!
