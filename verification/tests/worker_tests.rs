use veloxid::ban::BanList;
use veloxid::connection::{
    handle_connection_error, route_step, WorkerAction, WorkerEvent, WorkerPhase, BAN_LENGTH_MS,
    CONNREF_TIMEOUT_MS, NONCE_EARLY_EOF_TIMEOUT_MS, SECRET_REJECTED_TIMEOUT_MS,
};
use veloxid::error::{ConnectError, TunnelError};

#[test]
fn worker_loop_walks_its_states() {
    // Happy round: A, then B, then relay, then back to A.
    let (phase, action) = route_step(WorkerPhase::WantA, WorkerEvent::Acquired);
    assert_eq!(phase, WorkerPhase::WantB);
    assert_eq!(action, WorkerAction::AcquireB);

    let (phase, action) = route_step(phase, WorkerEvent::Acquired);
    assert_eq!(phase, WorkerPhase::Relaying);
    assert_eq!(action, WorkerAction::StartRelay);

    let (phase, action) = route_step(phase, WorkerEvent::RelayFinished);
    assert_eq!(phase, WorkerPhase::WantA);
    assert_eq!(action, WorkerAction::AcquireA);
}

#[test]
fn first_acquire_failure_recovers_in_place() {
    let e = ConnectError::Refused;
    let (phase, action) = route_step(WorkerPhase::WantA, WorkerEvent::AcquireFailed(e));
    assert_eq!(phase, WorkerPhase::WantA);
    assert_eq!(action, WorkerAction::Recover(e));
}

#[test]
fn second_acquire_failure_drops_the_held_connection_first() {
    let e = ConnectError::Tunnel(TunnelError::SecretRejected);
    let (phase, action) = route_step(WorkerPhase::WantB, WorkerEvent::AcquireFailed(e));
    assert_eq!(phase, WorkerPhase::WantA);
    assert_eq!(action, WorkerAction::DropFirstAndRecover(e));
}

#[test]
fn recovery_policy_backoffs_are_exact() {
    let now: u64 = 12_345;
    let mut ban_list = BanList::new();

    let refused = handle_connection_error(&ConnectError::Refused, &mut ban_list, now);
    assert_eq!(refused, CONNREF_TIMEOUT_MS);
    assert_eq!(refused, 5_000);

    let rejected = handle_connection_error(
        &ConnectError::Tunnel(TunnelError::SecretRejected),
        &mut ban_list,
        now,
    );
    assert_eq!(rejected, SECRET_REJECTED_TIMEOUT_MS);
    assert_eq!(rejected, 30_000);

    let eof = handle_connection_error(
        &ConnectError::Tunnel(TunnelError::NonceEarlyEOF),
        &mut ban_list,
        now,
    );
    assert_eq!(eof, NONCE_EARLY_EOF_TIMEOUT_MS);
    assert_eq!(eof, 15_000);

    let other = handle_connection_error(&ConnectError::Other, &mut ban_list, now);
    assert_eq!(other, 0);
    let banned_attempt = handle_connection_error(
        &ConnectError::Tunnel(TunnelError::ConnAttemptFromBannedIP),
        &mut ban_list,
        now,
    );
    assert_eq!(banned_attempt, 0);

    // None of those touch the ban list.
    assert!(!ban_list.is_banned(1, now));
}

#[test]
fn mismatch_and_timeout_ban_for_five_minutes() {
    let now: u64 = 777;
    let mut ban_list = BanList::new();

    let ms = handle_connection_error(
        &ConnectError::Tunnel(TunnelError::SecretMismatch(10)),
        &mut ban_list,
        now,
    );
    assert_eq!(ms, 0);
    let ms = handle_connection_error(
        &ConnectError::Tunnel(TunnelError::Timeout(11)),
        &mut ban_list,
        now,
    );
    assert_eq!(ms, 0);

    assert_eq!(BAN_LENGTH_MS, 300_000);
    for ip in [10u128, 11u128] {
        assert!(ban_list.is_banned(ip, now));
        assert!(ban_list.is_banned(ip, now + BAN_LENGTH_MS - 1));
        assert!(!ban_list.is_banned(ip, now + BAN_LENGTH_MS));
    }
}

#[test]
fn later_ban_extends_the_window() {
    // The ban list is monotone within an expiry window: a fresh insert
    // moves the expiry forward, and lookups see the new one.
    let mut ban_list = BanList::new();
    ban_list.insert(5, 1_000);
    ban_list.insert(5, 2_000);
    assert!(ban_list.is_banned(5, 1_500));
    assert!(!ban_list.is_banned(5, 2_000));
}
