//! A configurable TCP traffic router core: the tunnel handshake, the
//! ChaCha20 keystream bookkeeping, the relay engine's per-chunk transform,
//! the shared ban list, and the route worker state machine.
//!
//! All I/O lives outside this crate; the functions here are pure decisions
//! and transformations over plain values, with verified contracts.

use vstd::prelude::*;

pub mod ban;
pub mod cipher;
pub mod config;
pub mod connection;
pub mod encryption;
pub mod error;
pub mod handshake;
pub mod tunnel;

verus! {

/// Greatest keystream position a cipher context may reach. The IETF
/// ChaCha20 variant exposes a 32-bit block counter over 64-byte blocks;
/// staying at or below 64 * (2^32 - 1) bytes keeps every seek and every
/// keystream application within what the cipher can produce.
pub const KEYSTREAM_LEN: u64 = 0x3F_FFFF_FFC0;

} // verus!
