//! The tunnel object and the relay engine's verified core.
//!
//! A `Tunnel` is what a finished handshake leaves behind: the (secret,
//! nonce) pair and the role. The relay engine pairs two connections and
//! runs one copy task per direction; everything it decides — which cipher
//! contexts each direction applies, in which order, and what one read
//! turns into — is here. The socket loop around it only reads, calls
//! `CopyDirection::on_read`, and writes or shuts down as told.

use vstd::prelude::*;

use crate::cipher::{keystream_apply, Cipher};
use crate::handshake::{InboundHandshake, OutboundHandshake};
use crate::KEYSTREAM_LEN;

verus! {

/// An authenticated, encrypted byte stream's parameters: its nonce, its
/// secret, and its role with respect to TCP.
#[derive(Clone, Copy)]
pub struct Tunnel {
    pub nonce: [u8; 12],
    pub secret: [u8; 32],
    pub is_inbound: bool,
}

impl Tunnel {
    /// The tunnel a finished inbound handshake leaves behind. The machine
    /// must have emitted its readiness byte: relay traffic may follow.
    pub fn from_inbound(h: InboundHandshake) -> (t: Tunnel)
        requires
            h.state is Ready,
        ensures
            t.secret == h.secret,
            t.nonce == h.nonce,
            t.is_inbound,
    {
        Tunnel { nonce: h.nonce, secret: h.secret, is_inbound: true }
    }

    /// The tunnel a finished outbound handshake leaves behind.
    pub fn from_outbound(h: OutboundHandshake) -> (t: Tunnel)
        requires
            h.state is Ready,
            h.nonce is Some,
        ensures
            t.secret == h.secret,
            Some(t.nonce) == h.nonce,
            !t.is_inbound,
    {
        let nonce = match h.nonce {
            Some(n) => n,
            None => [0u8; 12],
        };
        Tunnel { nonce, secret: h.secret, is_inbound: false }
    }
}

/// One acquired connection: an authenticated tunnel, or a plain TCP
/// stream (which the I/O layer keeps beside this value).
pub enum Connection {
    Tunnel(Tunnel),
    Direct,
}

/// A fresh cipher context over a tunnel's (secret, nonce), at position 0.
pub open spec fn fresh_cipher(t: Tunnel) -> Cipher {
    Cipher { secret: t.secret, nonce: t.nonce, pos: 0 }
}

/// The cipher lists the relay engine owes each copy direction of a pair
/// of connections (A, B): the A→B list first, then B→A.
///
/// * direct↔direct: plain copy, no ciphers;
/// * tunnel↔direct: the tunnel's keystream decrypts what leaves it and
///   encrypts what enters it — one fresh context per direction;
/// * tunnel↔tunnel: a byte travelling A→B is decrypted with A's keystream
///   and re-encrypted with B's, so that direction holds [A, B]; the
///   reverse holds [B, A]. All four contexts are independent instances.
pub open spec fn relay_cipher_plan(a: Connection, b: Connection) -> (Seq<Cipher>, Seq<Cipher>) {
    match (a, b) {
        (Connection::Direct, Connection::Direct) => (
            Seq::<Cipher>::empty(),
            Seq::<Cipher>::empty(),
        ),
        (Connection::Tunnel(ta), Connection::Direct) => (
            seq![fresh_cipher(ta)],
            seq![fresh_cipher(ta)],
        ),
        (Connection::Direct, Connection::Tunnel(tb)) => (
            seq![fresh_cipher(tb)],
            seq![fresh_cipher(tb)],
        ),
        (Connection::Tunnel(ta), Connection::Tunnel(tb)) => (
            seq![fresh_cipher(ta), fresh_cipher(tb)],
            seq![fresh_cipher(tb), fresh_cipher(ta)],
        ),
    }
}

/// The relay engine's dispatch, exactly as `relay_cipher_plan` states it.
pub fn relay_ciphers(a: &Connection, b: &Connection) -> (r: (Vec<Cipher>, Vec<Cipher>))
    ensures
        r.0@ == relay_cipher_plan(*a, *b).0,
        r.1@ == relay_cipher_plan(*a, *b).1,
{
    match (a, b) {
        (Connection::Direct, Connection::Direct) => {
            let fwd: Vec<Cipher> = Vec::new();
            let rev: Vec<Cipher> = Vec::new();
            proof {
                assert(fwd@ =~= Seq::<Cipher>::empty());
                assert(rev@ =~= Seq::<Cipher>::empty());
            }
            (fwd, rev)
        },
        (Connection::Tunnel(ta), Connection::Direct) => {
            let mut fwd: Vec<Cipher> = Vec::new();
            fwd.push(Cipher::new(ta.secret, ta.nonce));
            let mut rev: Vec<Cipher> = Vec::new();
            rev.push(Cipher::new(ta.secret, ta.nonce));
            proof {
                assert(fwd@ =~= seq![fresh_cipher(*ta)]);
                assert(rev@ =~= seq![fresh_cipher(*ta)]);
            }
            (fwd, rev)
        },
        (Connection::Direct, Connection::Tunnel(tb)) => {
            let mut fwd: Vec<Cipher> = Vec::new();
            fwd.push(Cipher::new(tb.secret, tb.nonce));
            let mut rev: Vec<Cipher> = Vec::new();
            rev.push(Cipher::new(tb.secret, tb.nonce));
            proof {
                assert(fwd@ =~= seq![fresh_cipher(*tb)]);
                assert(rev@ =~= seq![fresh_cipher(*tb)]);
            }
            (fwd, rev)
        },
        (Connection::Tunnel(ta), Connection::Tunnel(tb)) => {
            let mut fwd: Vec<Cipher> = Vec::new();
            fwd.push(Cipher::new(ta.secret, ta.nonce));
            fwd.push(Cipher::new(tb.secret, tb.nonce));
            let mut rev: Vec<Cipher> = Vec::new();
            rev.push(Cipher::new(tb.secret, tb.nonce));
            rev.push(Cipher::new(ta.secret, ta.nonce));
            proof {
                assert(fwd@ =~= seq![fresh_cipher(*ta), fresh_cipher(*tb)]);
                assert(rev@ =~= seq![fresh_cipher(*tb), fresh_cipher(*ta)]);
            }
            (fwd, rev)
        },
    }
}

/// The data after every cipher of the list, in order, has XORed its
/// keystream (at its own position) into it.
pub open spec fn apply_cipher_seq(cs: Seq<Cipher>, data: Seq<u8>) -> Seq<u8>
    decreases cs.len(),
{
    if cs.len() == 0 {
        data
    } else {
        apply_cipher_seq(
            cs.drop_first(),
            keystream_apply(cs[0].secret@, cs[0].nonce@, cs[0].pos as int, data),
        )
    }
}

/// Every context of `post` is the matching context of `pre` advanced by
/// `n` keystream bytes.
pub open spec fn ciphers_advanced(pre: Seq<Cipher>, post: Seq<Cipher>, n: int) -> bool {
    &&& post.len() == pre.len()
    &&& forall|i: int|
        0 <= i < pre.len() ==> post[i].secret == pre[i].secret && post[i].nonce == pre[i].nonce
            && post[i].pos == pre[i].pos + n
}

/// Appending one cipher to the list applies it last.
proof fn lemma_apply_cipher_seq_snoc(cs: Seq<Cipher>, c: Cipher, data: Seq<u8>)
    ensures
        apply_cipher_seq(cs + seq![c], data) == keystream_apply(
            c.secret@,
            c.nonce@,
            c.pos as int,
            apply_cipher_seq(cs, data),
        ),
    decreases cs.len(),
{
    if cs.len() == 0 {
        assert(cs + seq![c] =~= seq![c]);
        assert(apply_cipher_seq(seq![c], data) == apply_cipher_seq(
            seq![c].drop_first(),
            keystream_apply(c.secret@, c.nonce@, c.pos as int, data),
        ));
        assert(seq![c].drop_first() =~= Seq::<Cipher>::empty());
    } else {
        let head = cs[0];
        let stepped = keystream_apply(head.secret@, head.nonce@, head.pos as int, data);
        assert((cs + seq![c]).drop_first() =~= cs.drop_first() + seq![c]);
        lemma_apply_cipher_seq_snoc(cs.drop_first(), c, stepped);
    }
}

/// What one read turns into: the end of the stream, or a chunk to forward.
pub enum CopyStep {
    /// The source reached EOF: half-close the destination and finish.
    Shutdown,
    /// Write these bytes to the destination, in order, before reading again.
    Forward(Vec<u8>),
}

/// One direction of a relay: the ordered cipher contexts it applies to
/// every chunk that flows through it.
pub struct CopyDirection {
    pub ciphers: Vec<Cipher>,
}

impl CopyDirection {
    /// A direction with the given cipher list, positions untouched.
    pub fn new(ciphers: Vec<Cipher>) -> (d: CopyDirection)
        ensures
            d.ciphers@ == ciphers@,
    {
        CopyDirection { ciphers }
    }

    /// The copy loop's body. An empty read is EOF: the destination is to
    /// be half-closed, and no cipher moves. Otherwise every cipher of the
    /// list, in order, XORs its keystream into the chunk, each advancing
    /// by the chunk's length, and the result is forwarded unabridged.
    pub fn on_read(&mut self, chunk: Vec<u8>) -> (step: CopyStep)
        requires
            forall|i: int|
                0 <= i < old(self).ciphers@.len() ==> old(self).ciphers@[i].pos + chunk@.len()
                    <= KEYSTREAM_LEN,
        ensures
            chunk@.len() == 0 ==> step is Shutdown && final(self).ciphers@ == old(self).ciphers@,
            chunk@.len() > 0 ==> (step matches CopyStep::Forward(out) && out@ == apply_cipher_seq(
                old(self).ciphers@,
                chunk@,
            ) && out@.len() == chunk@.len() && ciphers_advanced(
                old(self).ciphers@,
                final(self).ciphers@,
                chunk@.len() as int,
            )),
    {
        if chunk.len() == 0 {
            return CopyStep::Shutdown;
        }
        let mut buf = chunk;
        process_chunk(&mut self.ciphers, &mut buf);
        CopyStep::Forward(buf)
    }
}

/// Applies every cipher of the list, in order, to the buffer in place;
/// each cipher advances by the buffer's length.
pub fn process_chunk(ciphers: &mut Vec<Cipher>, buf: &mut Vec<u8>)
    requires
        forall|i: int|
            0 <= i < old(ciphers)@.len() ==> old(ciphers)@[i].pos + old(buf)@.len()
                <= KEYSTREAM_LEN,
    ensures
        final(buf)@ == apply_cipher_seq(old(ciphers)@, old(buf)@),
        final(buf)@.len() == old(buf)@.len(),
        ciphers_advanced(old(ciphers)@, final(ciphers)@, old(buf)@.len() as int),
{
    let n = buf.len();
    let mut idx: usize = 0;
    while idx < ciphers.len()
        invariant
            idx <= ciphers@.len(),
            ciphers@.len() == old(ciphers)@.len(),
            buf@.len() == old(buf)@.len(),
            n == old(buf)@.len(),
            buf@ == apply_cipher_seq(old(ciphers)@.take(idx as int), old(buf)@),
            forall|i: int|
                0 <= i < old(ciphers)@.len() ==> old(ciphers)@[i].pos + old(buf)@.len()
                    <= KEYSTREAM_LEN,
            forall|i: int|
                0 <= i < idx ==> ciphers@[i].secret == old(ciphers)@[i].secret
                    && ciphers@[i].nonce == old(ciphers)@[i].nonce && ciphers@[i].pos == old(
                    ciphers,
                )@[i].pos + n,
            forall|i: int| idx <= i < ciphers@.len() ==> ciphers@[i] == old(ciphers)@[i],
        decreases ciphers@.len() - idx,
    {
        let mut c = ciphers[idx];
        proof {
            assert(c == old(ciphers)@[idx as int]);
        }
        c.apply_keystream(buf);
        ciphers.set(idx, c);
        proof {
            let pre = old(ciphers)@;
            assert(pre.take(idx + 1) =~= pre.take(idx as int) + seq![pre[idx as int]]);
            lemma_apply_cipher_seq_snoc(
                pre.take(idx as int),
                pre[idx as int],
                old(buf)@,
            );
        }
        idx = idx + 1;
    }
    proof {
        assert(old(ciphers)@.take(old(ciphers)@.len() as int) =~= old(ciphers)@);
    }
}

/// Chunking is transparent to a copy direction: transforming `d1` and
/// then `d2` with the advanced contexts — exactly what two successive
/// reads do — equals transforming the concatenated stream at once. So a
/// relay direction's output is a function of the byte stream alone, not
/// of how the socket happened to chop it into reads.
pub proof fn lemma_apply_cipher_seq_concat(
    cs: Seq<Cipher>,
    advanced: Seq<Cipher>,
    d1: Seq<u8>,
    d2: Seq<u8>,
)
    requires
        ciphers_advanced(cs, advanced, d1.len() as int),
    ensures
        apply_cipher_seq(cs, d1 + d2) == apply_cipher_seq(cs, d1) + apply_cipher_seq(advanced, d2),
    decreases cs.len(),
{
    if cs.len() == 0 {
        assert(d1 + d2 =~= apply_cipher_seq(cs, d1) + apply_cipher_seq(advanced, d2));
    } else {
        let c = cs[0];
        crate::cipher::lemma_keystream_apply_concat(c.secret@, c.nonce@, c.pos as int, d1, d2);
        let e1 = keystream_apply(c.secret@, c.nonce@, c.pos as int, d1);
        let e2 = keystream_apply(c.secret@, c.nonce@, c.pos + d1.len(), d2);
        assert(keystream_apply(c.secret@, c.nonce@, c.pos as int, d1 + d2) == e1 + e2);
        assert(advanced[0].pos == c.pos + d1.len());
        assert(keystream_apply(advanced[0].secret@, advanced[0].nonce@, advanced[0].pos as int, d2)
            == e2);
        assert(ciphers_advanced(cs.drop_first(), advanced.drop_first(), e1.len() as int)) by {
            assert(e1.len() == d1.len());
            assert forall|i: int| 0 <= i < cs.drop_first().len() implies cs.drop_first()[i]
                == cs[i + 1] && advanced.drop_first()[i] == advanced[i + 1] by {}
        }
        lemma_apply_cipher_seq_concat(cs.drop_first(), advanced.drop_first(), e1, e2);
    }
}

/// Relay fidelity, direct↔direct: with no ciphers a forwarded chunk is
/// exactly the chunk that was read.
pub proof fn lemma_relay_fidelity_direct(data: Seq<u8>)
    ensures
        apply_cipher_seq(Seq::<Cipher>::empty(), data) == data,
{
}

/// Relay fidelity across one tunnel: a chunk the remote peer encrypted at
/// keystream position `pos` comes out of the relay's matching cipher
/// context as the original plaintext.
pub proof fn lemma_relay_fidelity_tunnel(t: Tunnel, pos: u64, plain: Seq<u8>)
    ensures
        apply_cipher_seq(
            seq![Cipher { secret: t.secret, nonce: t.nonce, pos }],
            keystream_apply(t.secret@, t.nonce@, pos as int, plain),
        ) == plain,
{
    let wire = keystream_apply(t.secret@, t.nonce@, pos as int, plain);
    let c = (Cipher { secret: t.secret, nonce: t.nonce, pos });
    let cs = seq![c];
    assert(cs[0] == c);
    let once = keystream_apply(c.secret@, c.nonce@, c.pos as int, wire);
    assert(apply_cipher_seq(cs, wire) == apply_cipher_seq(cs.drop_first(), once));
    assert(cs.drop_first() =~= Seq::<Cipher>::empty());
    assert(apply_cipher_seq(Seq::<Cipher>::empty(), once) == once);
    crate::cipher::lemma_keystream_roundtrip(t.secret@, t.nonce@, pos as int, plain);
    assert(once == plain);
}

/// Relay fidelity across a tunnel↔tunnel join: a chunk peer A encrypted
/// at position `pos_a`, run through the join's ordered pair [A, B] and
/// then through peer B's own context at `pos_b`, is the original
/// plaintext: A's keystream is applied exactly twice, and so is B's.
pub proof fn lemma_relay_fidelity_join(ta: Tunnel, tb: Tunnel, pos_a: u64, pos_b: u64, plain: Seq<u8>)
    ensures
        keystream_apply(
            tb.secret@,
            tb.nonce@,
            pos_b as int,
            apply_cipher_seq(
                seq![
                    Cipher { secret: ta.secret, nonce: ta.nonce, pos: pos_a },
                    Cipher { secret: tb.secret, nonce: tb.nonce, pos: pos_b },
                ],
                keystream_apply(ta.secret@, ta.nonce@, pos_a as int, plain),
            ),
        ) == plain,
{
    let wire_a = keystream_apply(ta.secret@, ta.nonce@, pos_a as int, plain);
    let ca = (Cipher { secret: ta.secret, nonce: ta.nonce, pos: pos_a });
    let cb = (Cipher { secret: tb.secret, nonce: tb.nonce, pos: pos_b });
    let cs = seq![ca, cb];
    assert(cs[0] == ca);
    let after_a = keystream_apply(ca.secret@, ca.nonce@, ca.pos as int, wire_a);
    assert(apply_cipher_seq(cs, wire_a) == apply_cipher_seq(cs.drop_first(), after_a));
    assert(cs.drop_first() =~= seq![cb]);
    assert(seq![cb][0] == cb);
    let after_b = keystream_apply(cb.secret@, cb.nonce@, cb.pos as int, after_a);
    assert(apply_cipher_seq(seq![cb], after_a) == apply_cipher_seq(
        seq![cb].drop_first(),
        after_b,
    ));
    assert(seq![cb].drop_first() =~= Seq::<Cipher>::empty());
    assert(apply_cipher_seq(Seq::<Cipher>::empty(), after_b) == after_b);
    crate::cipher::lemma_keystream_roundtrip(ta.secret@, ta.nonce@, pos_a as int, plain);
    assert(after_a == plain);
    crate::cipher::lemma_keystream_roundtrip(tb.secret@, tb.nonce@, pos_b as int, plain);
}

} // verus!
