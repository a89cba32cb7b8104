//! Acquiring connections and the route worker's control loop.
//!
//! A worker forever acquires a connection from each of its two endpoint
//! bindings, relays between them, and recovers from failures with the
//! per-kind policy of the error taxonomy. The I/O layer performs the
//! accepts, dials and sleeps; every decision — whether a peer may be
//! admitted, what a failure costs, what to do next — is taken here.

use vstd::prelude::*;

use crate::ban::{banned_at, BanList};
use crate::config::{ConnectionType, Direction, Endpoint};
use crate::encryption::{generate_secret_from_string, sha256_of};
use crate::error::{ConfigError, ConnectError, TunnelError};

verus! {

/// Backoff after a refused dial, in milliseconds.
pub const CONNREF_TIMEOUT_MS: u64 = 5_000;

/// Backoff after the remote rejected our secret, in milliseconds.
pub const SECRET_REJECTED_TIMEOUT_MS: u64 = 30_000;

/// Backoff after an early EOF in the nonce exchange, in milliseconds.
pub const NONCE_EARLY_EOF_TIMEOUT_MS: u64 = 15_000;

/// How long a misbehaving peer stays banned, in milliseconds.
pub const BAN_LENGTH_MS: u64 = 300_000;

/// A reusable endpoint binding's decision-relevant part: its direction and,
/// in tunnel mode, the derived 32-byte secret. The I/O layer keeps the
/// listener or the dial address beside it.
pub enum ConnectionData {
    Inbound { secret_option: Option<[u8; 32]> },
    Outbound { secret_option: Option<[u8; 32]> },
}

/// The secret bytes an endpoint's binding must carry: the SHA-256 digest
/// of its configured secret in tunnel mode, nothing in direct mode.
pub open spec fn endpoint_secret_bytes(e: Endpoint) -> Option<Seq<u8>> {
    match e.kind {
        ConnectionType::Tunnel => match e.secret {
            Some(s) => Some(sha256_of(s@)),
            None => None,
        },
        ConnectionType::Direct => None,
    }
}

/// Whether a binding is what the endpoint calls for: same direction, and
/// exactly the secret bytes of `endpoint_secret_bytes`.
pub open spec fn data_matches_endpoint(d: ConnectionData, e: Endpoint) -> bool {
    &&& (d is Inbound <==> e.direction is Inbound)
    &&& match d {
        ConnectionData::Inbound { secret_option } => secrets_match(secret_option, e),
        ConnectionData::Outbound { secret_option } => secrets_match(secret_option, e),
    }
}

/// The binding's secret against the endpoint's: both absent, or the
/// binding holds the endpoint's derived digest.
pub open spec fn secrets_match(secret_option: Option<[u8; 32]>, e: Endpoint) -> bool {
    match (secret_option, endpoint_secret_bytes(e)) {
        (Some(b), Some(d)) => b@ == d,
        (None, None) => true,
        _ => false,
    }
}

/// Turns an endpoint descriptor into its binding. A tunnel endpoint
/// without a secret is refused with `NoSecret` — the binding is never
/// created; otherwise the secret string, if any, is derived into its
/// 32-byte key here, once, and shared by all workers of the route.
pub fn get_connection_data(endpoint: &Endpoint) -> (r: Result<ConnectionData, ConfigError>)
    ensures
        r is Err <==> (endpoint.kind is Tunnel && endpoint.secret is None),
        r is Err ==> r->Err_0 == ConfigError::NoSecret,
        r is Ok ==> data_matches_endpoint(r->Ok_0, *endpoint),
{
    let secret_option: Option<[u8; 32]> = match endpoint.kind {
        ConnectionType::Tunnel => match &endpoint.secret {
            Some(secret) => Some(generate_secret_from_string(secret.clone())),
            None => {
                return Err(ConfigError::NoSecret);
            },
        },
        ConnectionType::Direct => None,
    };
    Ok(
        match endpoint.direction {
            Direction::Outbound => ConnectionData::Outbound { secret_option },
            Direction::Inbound => ConnectionData::Inbound { secret_option },
        },
    )
}

/// The host an endpoint binds or dials: the configured one, or every
/// local interface when none is set.
pub fn host_or_default(endpoint: &Endpoint) -> (h: String)
    ensures
        endpoint.host matches Some(s) ==> h@ == s@,
        endpoint.host is None ==> h@ == "0.0.0.0"@,
{
    match &endpoint.host {
        Some(host) => host.clone(),
        None => "0.0.0.0".to_owned(),
    }
}

/// Whether a binding is an inbound tunnel: only those consult the ban list.
pub open spec fn is_tunnel_inbound(d: ConnectionData) -> bool {
    match d {
        ConnectionData::Inbound { secret_option } => secret_option is Some,
        ConnectionData::Outbound { .. } => false,
    }
}

/// The accept gate: a connection just accepted by an inbound tunnel
/// endpoint from a peer that is still banned fails immediately with
/// `ConnAttemptFromBannedIP` — before any bytes are read. Direct
/// endpoints and outbound bindings admit everyone.
pub fn admit_inbound(ban_list: &BanList, data: &ConnectionData, peer: u128, now: u64) -> (r: Result<
    (),
    TunnelError,
>)
    ensures
        r is Err <==> (is_tunnel_inbound(*data) && banned_at(ban_list@, peer, now)),
        r is Err ==> r->Err_0 == TunnelError::ConnAttemptFromBannedIP,
{
    let consult = match data {
        ConnectionData::Inbound { secret_option: Some(_) } => true,
        _ => false,
    };
    if consult && ban_list.is_banned(peer, now) {
        Err(TunnelError::ConnAttemptFromBannedIP)
    } else {
        Ok(())
    }
}

/// The recovery policy for one failed connection attempt, exactly as the
/// error taxonomy prescribes: a refused dial sleeps 5 s; a rejected secret
/// sleeps 30 s; an early EOF in the nonce exchange sleeps 15 s; a secret
/// mismatch or a handshake timeout bans the peer for 5 minutes and
/// continues at once; everything else continues at once. The returned
/// value is the backoff the caller owes, in milliseconds.
pub fn handle_connection_error(error: &ConnectError, ban_list: &mut BanList, now: u64) -> (sleep_ms:
    u64)
    requires
        now + BAN_LENGTH_MS <= u64::MAX,
    ensures
        match *error {
            ConnectError::Refused => sleep_ms == CONNREF_TIMEOUT_MS
                && final(ban_list)@ == old(ban_list)@,
            ConnectError::Tunnel(te) => match te {
                TunnelError::SecretRejected => sleep_ms == SECRET_REJECTED_TIMEOUT_MS
                    && final(ban_list)@ == old(ban_list)@,
                TunnelError::NonceEarlyEOF => sleep_ms == NONCE_EARLY_EOF_TIMEOUT_MS
                    && final(ban_list)@ == old(ban_list)@,
                TunnelError::SecretMismatch(ip) => sleep_ms == 0
                    && final(ban_list)@ == old(ban_list)@.insert(ip, (now + BAN_LENGTH_MS) as u64),
                TunnelError::Timeout(ip) => sleep_ms == 0
                    && final(ban_list)@ == old(ban_list)@.insert(ip, (now + BAN_LENGTH_MS) as u64),
                TunnelError::ConnAttemptFromBannedIP => sleep_ms == 0
                    && final(ban_list)@ == old(ban_list)@,
            },
            ConnectError::Other => sleep_ms == 0 && final(ban_list)@ == old(ban_list)@,
        },
{
    match error {
        ConnectError::Refused => CONNREF_TIMEOUT_MS,
        ConnectError::Tunnel(te) => match te {
            TunnelError::SecretRejected => SECRET_REJECTED_TIMEOUT_MS,
            TunnelError::NonceEarlyEOF => NONCE_EARLY_EOF_TIMEOUT_MS,
            TunnelError::SecretMismatch(ip) => {
                ban_list.insert(*ip, now + BAN_LENGTH_MS);
                0
            },
            TunnelError::Timeout(ip) => {
                ban_list.insert(*ip, now + BAN_LENGTH_MS);
                0
            },
            TunnelError::ConnAttemptFromBannedIP => 0,
        },
        ConnectError::Other => 0,
    }
}

/// Where a route worker stands in its perpetual loop.
#[derive(Clone, Copy, Debug, PartialEq, Eq, Structural)]
pub enum WorkerPhase {
    /// No connection held: the first endpoint is to be acquired.
    WantA,
    /// The first connection is held; the second is to be acquired.
    WantB,
    /// Both connections handed to the relay engine; awaiting its end.
    Relaying,
}

/// What the I/O layer reports back to the worker machine.
#[derive(Clone, Copy, Debug, PartialEq, Eq, Structural)]
pub enum WorkerEvent {
    /// The pending acquire produced a connection.
    Acquired,
    /// The pending acquire failed.
    AcquireFailed(ConnectError),
    /// The relay returned; the round is over either way.
    RelayFinished,
}

/// What the worker machine tells the I/O layer to do next.
#[derive(Clone, Copy, Debug, PartialEq, Eq, Structural)]
pub enum WorkerAction {
    /// Acquire a connection from endpoint A.
    AcquireA,
    /// Acquire a connection from endpoint B.
    AcquireB,
    /// Hand both held connections to the relay engine.
    StartRelay,
    /// Apply `handle_connection_error` to this failure, sleep as it says,
    /// then acquire endpoint A again.
    Recover(ConnectError),
    /// Close the held first connection, then as `Recover`: the connection
    /// must be gone before any backoff begins.
    DropFirstAndRecover(ConnectError),
}

/// Which events can reach the machine in which phase: acquires answer the
/// two acquiring phases, and only a running relay finishes.
pub open spec fn phase_accepts(phase: WorkerPhase, event: WorkerEvent) -> bool {
    match (phase, event) {
        (WorkerPhase::WantA, WorkerEvent::Acquired) => true,
        (WorkerPhase::WantA, WorkerEvent::AcquireFailed(_)) => true,
        (WorkerPhase::WantB, WorkerEvent::Acquired) => true,
        (WorkerPhase::WantB, WorkerEvent::AcquireFailed(_)) => true,
        (WorkerPhase::Relaying, WorkerEvent::RelayFinished) => true,
        _ => false,
    }
}

/// The worker loop's transition function:
///
/// * acquiring A succeeds → acquire B; fails → recover, then A again;
/// * acquiring B succeeds → relay; fails → drop A first, recover, then A;
/// * the relay returning, cleanly or not, starts the next round at A.
pub open spec fn route_step_spec(phase: WorkerPhase, event: WorkerEvent) -> (
    WorkerPhase,
    WorkerAction,
) {
    match (phase, event) {
        (WorkerPhase::WantA, WorkerEvent::Acquired) => (WorkerPhase::WantB, WorkerAction::AcquireB),
        (WorkerPhase::WantA, WorkerEvent::AcquireFailed(e)) => (
            WorkerPhase::WantA,
            WorkerAction::Recover(e),
        ),
        (WorkerPhase::WantB, WorkerEvent::Acquired) => (
            WorkerPhase::Relaying,
            WorkerAction::StartRelay,
        ),
        (WorkerPhase::WantB, WorkerEvent::AcquireFailed(e)) => (
            WorkerPhase::WantA,
            WorkerAction::DropFirstAndRecover(e),
        ),
        (WorkerPhase::Relaying, WorkerEvent::RelayFinished) => (
            WorkerPhase::WantA,
            WorkerAction::AcquireA,
        ),
        (p, _) => (p, WorkerAction::AcquireA),
    }
}

/// One step of the route worker loop, exactly as `route_step_spec` says.
pub fn route_step(phase: WorkerPhase, event: WorkerEvent) -> (r: (WorkerPhase, WorkerAction))
    requires
        phase_accepts(phase, event),
    ensures
        r == route_step_spec(phase, event),
{
    match (phase, event) {
        (WorkerPhase::WantA, WorkerEvent::Acquired) => (WorkerPhase::WantB, WorkerAction::AcquireB),
        (WorkerPhase::WantA, WorkerEvent::AcquireFailed(e)) => (
            WorkerPhase::WantA,
            WorkerAction::Recover(e),
        ),
        (WorkerPhase::WantB, WorkerEvent::Acquired) => (
            WorkerPhase::Relaying,
            WorkerAction::StartRelay,
        ),
        (WorkerPhase::WantB, WorkerEvent::AcquireFailed(e)) => (
            WorkerPhase::WantA,
            WorkerAction::DropFirstAndRecover(e),
        ),
        (WorkerPhase::Relaying, WorkerEvent::RelayFinished) => (
            WorkerPhase::WantA,
            WorkerAction::AcquireA,
        ),
        (p, _) => (p, WorkerAction::AcquireA),
    }
}

} // verus!
