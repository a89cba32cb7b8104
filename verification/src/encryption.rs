//! Key material: the 32-byte secret derived from a configured string,
//! and the fresh 12-byte random nonce of each inbound connection.

use rand::Rng;
use sha2::Digest;
use sha2::Sha256;
use vstd::prelude::*;

verus! {

/// The SHA-256 digest of the UTF-8 encoding of the given characters.
/// The digest depends on the characters alone.
pub uninterp spec fn sha256_of(s: Seq<char>) -> Seq<u8>;

/// Relies on `sha2::Sha256` (through `Digest::new`, `Digest::update` and
/// `Digest::finalize`): the result is the 32-byte SHA-256 digest of the
/// string's UTF-8 bytes.
#[verifier::external_body]
pub fn generate_secret_from_string(secret_str: String) -> (secret: [u8; 32])
    ensures
        secret@ == sha256_of(secret_str@),
{
    let mut hasher = Sha256::new();
    hasher.update(secret_str);
    let mut secret = [0u8; 32];
    secret.copy_from_slice(&hasher.finalize());
    secret
}

/// Relies on `rand::thread_rng` and `rand::Rng::fill`: fills 12 bytes from
/// the thread-local generator. Nothing is promised of a random value.
#[verifier::external_body]
pub fn generate_random_nonce() -> (nonce: [u8; 12])
{
    let mut rng = rand::thread_rng();
    let mut nonce = [0u8; 12];
    rng.fill(&mut nonce);
    nonce
}

} // verus!
