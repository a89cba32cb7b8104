//! Failure taxonomy of the tunnel protocol and of configuration loading.
//!
//! Peer addresses are carried as plain integers (an IPv4 address fits in the
//! low 32 bits; an IPv6 address uses all 128), so that the ban list and the
//! error values stay within verified code; the I/O layer converts.

use vstd::prelude::*;

verus! {

/// A failure of one connection attempt of a route worker.
#[derive(Clone, Copy, Debug, PartialEq, Eq, Structural)]
pub enum TunnelError {
    /// The inbound side read an auth token that did not decrypt to the
    /// expected literal; the peer address is recorded for banning.
    SecretMismatch(u128),
    /// The outbound side was told (by the reserved byte) that its secret
    /// was rejected by the remote.
    SecretRejected,
    /// A handshake read exceeded its time limit.
    Timeout(u128),
    /// The outbound side hit end-of-stream before the full nonce arrived.
    NonceEarlyEOF,
    /// An inbound connection arrived from an address that is still banned.
    ConnAttemptFromBannedIP,
}

/// A configuration error; fatal at startup.
#[derive(Clone, Copy, Debug, PartialEq, Eq, Structural)]
pub enum ConfigError {
    /// A route names an endpoint that the endpoint table does not hold.
    EndpointNotFound,
    /// A route pairs an endpoint with itself.
    RouteToSelf,
    /// A tunnel-mode endpoint has no secret.
    NoSecret,
}

/// Everything that can make one `acquire` of a connection fail: a refused
/// dial, a tunnel handshake failure, or any other I/O fault.
#[derive(Clone, Copy, Debug, PartialEq, Eq, Structural)]
pub enum ConnectError {
    /// The TCP dial was refused outright.
    Refused,
    /// The handshake failed with the given protocol error.
    Tunnel(TunnelError),
    /// Any other I/O error; no recovery policy applies.
    Other,
}

} // verus!
