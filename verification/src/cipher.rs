//! The cipher context: a ChaCha20 keystream position over a fixed
//! (secret, nonce) pair, applied in place to byte buffers.
//!
//! The keystream itself is named, not restated: `keystream_byte` stands for
//! the byte the cipher produces at a given position, and every contract in
//! the crate speaks of encryption as an XOR against those named bytes.

use chacha20::cipher::KeyIvInit;
use chacha20::cipher::StreamCipher;
use chacha20::cipher::StreamCipherSeek;
use vstd::prelude::*;

use crate::KEYSTREAM_LEN;

verus! {

/// The byte at position `i` of the ChaCha20 keystream generated from a
/// 32-byte secret and a 12-byte nonce (IETF variant, counter starting at 0).
pub uninterp spec fn keystream_byte(secret: Seq<u8>, nonce: Seq<u8>, i: int) -> u8;

/// `data` XORed byte for byte against the keystream starting at `pos`.
/// Encryption and decryption are both exactly this.
pub open spec fn keystream_apply(secret: Seq<u8>, nonce: Seq<u8>, pos: int, data: Seq<u8>) -> Seq<
    u8,
> {
    Seq::new(data.len(), |i: int| data[i] ^ keystream_byte(secret, nonce, pos + i))
}

/// Relies on `chacha20::ChaCha20` (through `cipher::KeyIvInit::new`,
/// `cipher::StreamCipherSeek::seek` and `cipher::StreamCipher::apply_keystream`):
/// seeking a fresh cipher to `pos` and applying it XORs the keystream bytes
/// at positions `pos..pos + buf.len()` into `buf` in place. The position
/// bound keeps the 32-bit block counter from running out, so the call
/// cannot fail.
#[verifier::external_body]
fn chacha_xor_at(secret: &[u8; 32], nonce: &[u8; 12], pos: u64, buf: &mut Vec<u8>)
    requires
        pos + old(buf)@.len() <= KEYSTREAM_LEN,
    ensures
        final(buf)@.len() == old(buf)@.len(),
        forall|i: int|
            0 <= i < old(buf)@.len() ==> final(buf)@[i] == (old(buf)@[i] ^ keystream_byte(
                secret@,
                nonce@,
                pos + i,
            )),
{
    let mut cipher = chacha20::ChaCha20::new(secret.into(), nonce.into());
    cipher.seek(pos);
    cipher.apply_keystream(buf.as_mut_slice());
}

/// A cipher context: (secret, nonce, position). Created in pairs, one per
/// direction per endpoint; the position advances monotonically as bytes flow.
#[derive(Clone, Copy)]
pub struct Cipher {
    pub secret: [u8; 32],
    pub nonce: [u8; 12],
    pub pos: u64,
}

impl Cipher {
    /// A fresh context with its keystream at position 0.
    pub fn new(secret: [u8; 32], nonce: [u8; 12]) -> (c: Cipher)
        ensures
            c.secret == secret,
            c.nonce == nonce,
            c.pos == 0,
    {
        Cipher { secret, nonce, pos: 0 }
    }

    /// XORs the next `buf.len()` bytes of the keystream into `buf` in place
    /// and advances the position by `buf.len()`.
    pub fn apply_keystream(&mut self, buf: &mut Vec<u8>)
        requires
            old(self).pos + old(buf)@.len() <= KEYSTREAM_LEN,
        ensures
            final(self).secret == old(self).secret,
            final(self).nonce == old(self).nonce,
            final(self).pos == old(self).pos + old(buf)@.len(),
            final(buf)@ == keystream_apply(
                old(self).secret@,
                old(self).nonce@,
                old(self).pos as int,
                old(buf)@,
            ),
    {
        let n = buf.len();
        chacha_xor_at(&self.secret, &self.nonce, self.pos, buf);
        self.pos = self.pos + n as u64;
        proof {
            assert(buf@ =~= keystream_apply(self.secret@, self.nonce@, old(self).pos as int, old(buf)@));
        }
    }
}

/// Applying two independent ciphers over the same (secret, nonce) and the
/// same starting position, one after the other, returns any data unchanged:
/// XOR against the same keystream bytes is its own inverse.
pub proof fn lemma_keystream_roundtrip(secret: Seq<u8>, nonce: Seq<u8>, pos: int, data: Seq<u8>)
    ensures
        keystream_apply(secret, nonce, pos, keystream_apply(secret, nonce, pos, data)) == data,
{
    let once = keystream_apply(secret, nonce, pos, data);
    let twice = keystream_apply(secret, nonce, pos, once);
    assert forall|i: int| 0 <= i < data.len() implies twice[i] == data[i] by {
        let b = data[i];
        let k = keystream_byte(secret, nonce, pos + i);
        assert(((b ^ k) ^ k) == b) by (bit_vector);
    }
    assert(twice =~= data);
}

/// Keystream application distributes over concatenation: ciphering a stream
/// chunk by chunk, with the position carried forward, equals ciphering the
/// whole stream at once.
pub proof fn lemma_keystream_apply_concat(
    secret: Seq<u8>,
    nonce: Seq<u8>,
    pos: int,
    d1: Seq<u8>,
    d2: Seq<u8>,
)
    ensures
        keystream_apply(secret, nonce, pos, d1 + d2) == keystream_apply(secret, nonce, pos, d1)
            + keystream_apply(secret, nonce, pos + d1.len(), d2),
{
    let whole = keystream_apply(secret, nonce, pos, d1 + d2);
    let parts = keystream_apply(secret, nonce, pos, d1) + keystream_apply(
        secret,
        nonce,
        pos + d1.len(),
        d2,
    );
    assert(whole =~= parts);
}

} // verus!
