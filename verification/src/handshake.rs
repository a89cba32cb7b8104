//! The tunnel handshake, as two state machines over plain values.
//!
//! The inbound side accepted the TCP connection; the outbound side dialed.
//! Each machine consumes the bytes the I/O layer read and hands back the
//! bytes to write, so the whole wire protocol is decided here:
//!
//! * inbound:  send nonce, await auth token, then (on the worker's signal)
//!   send the readiness byte `0x01`, or `0x02` on a secret mismatch;
//! * outbound: await nonce, send the encrypted auth token, await the
//!   readiness byte.
//!
//! Each machine carries a ghost transcript of everything it has emitted,
//! and the well-formedness predicates pin that transcript per state: that
//! is the handshake framing guarantee.

use vstd::prelude::*;

use crate::cipher::{keystream_apply, Cipher};
use crate::error::TunnelError;

verus! {

/// The 4-byte authentication literal the outbound side encrypts: `AUTH`.
pub open spec fn auth_token() -> Seq<u8> {
    seq![0x41u8, 0x55u8, 0x54u8, 0x48u8]
}

/// The auth literal as a fresh buffer.
fn auth_plaintext() -> (r: Vec<u8>)
    ensures
        r@ == auth_token(),
{
    let mut v: Vec<u8> = Vec::new();
    v.push(0x41u8);
    v.push(0x55u8);
    v.push(0x54u8);
    v.push(0x48u8);
    proof {
        assert(v@ =~= auth_token());
    }
    v
}

/// Where the inbound machine stands.
#[derive(Clone, Copy, Debug, PartialEq, Eq, Structural)]
pub enum InboundState {
    /// Nonce sent; waiting for the 4 auth bytes.
    AwaitAuth,
    /// Auth token verified; the readiness byte is not yet due.
    Authenticated,
    /// Readiness byte emitted; relay may begin.
    Ready,
    /// Terminal failure.
    Failed(TunnelError),
}

/// The inbound half of the handshake.
pub struct InboundHandshake {
    pub secret: [u8; 32],
    pub nonce: [u8; 12],
    /// The peer's address, for ban-list bookkeeping on failure.
    pub peer: u128,
    pub state: InboundState,
    /// Every byte this side has emitted on the wire, oldest first.
    pub sent: Ghost<Seq<u8>>,
}

/// The transcript an inbound machine must have emitted in each state:
/// exactly the 12 nonce bytes first, and after authentication exactly one
/// reserved byte (`0x01` when ready, `0x02` on a mismatch), nothing else.
pub open spec fn inbound_wf(h: InboundHandshake) -> bool {
    match h.state {
        InboundState::AwaitAuth => h.sent@ == h.nonce@,
        InboundState::Authenticated => h.sent@ == h.nonce@,
        InboundState::Ready => h.sent@ == h.nonce@ + seq![1u8],
        InboundState::Failed(e) => match e {
            TunnelError::SecretMismatch(_) => h.sent@ == h.nonce@ + seq![2u8],
            _ => h.sent@ == h.nonce@,
        },
    }
}

impl InboundHandshake {
    /// Accepting side: record the freshly drawn nonce and hand back its 12
    /// raw bytes, the first (and only) frame before the reserved byte.
    pub fn start(secret: [u8; 32], nonce: [u8; 12], peer: u128) -> (r: (InboundHandshake, Vec<u8>))
        ensures
            r.1@ == nonce@,
            r.0.secret == secret,
            r.0.nonce == nonce,
            r.0.peer == peer,
            r.0.state is AwaitAuth,
            r.0.sent@ == nonce@,
            inbound_wf(r.0),
    {
        let mut out: Vec<u8> = Vec::new();
        let mut i: usize = 0;
        while i < 12
            invariant
                i <= 12,
                out@ == nonce@.subrange(0, i as int),
            decreases 12 - i,
        {
            out.push(nonce[i]);
            proof {
                assert(out@ =~= nonce@.subrange(0, i + 1));
            }
            i = i + 1;
        }
        proof {
            assert(out@ =~= nonce@);
        }
        let h = InboundHandshake {
            secret,
            nonce,
            peer,
            state: InboundState::AwaitAuth,
            sent: Ghost(nonce@),
        };
        (h, out)
    }

    /// The 4 auth bytes arrived: decrypt them and verify. On a mismatch the
    /// reserved byte `0x02` is emitted and the machine fails with
    /// `SecretMismatch`; on a match nothing is written yet.
    pub fn on_auth(&mut self, auth: &Vec<u8>) -> (r: (Vec<u8>, Result<(), TunnelError>))
        requires
            old(self).state is AwaitAuth,
            auth@.len() == 4,
        ensures
            final(self).secret == old(self).secret,
            final(self).nonce == old(self).nonce,
            final(self).peer == old(self).peer,
            final(self).sent@ == old(self).sent@ + r.0@,
            keystream_apply(old(self).secret@, old(self).nonce@, 0, auth@) == auth_token() ==> {
                &&& final(self).state is Authenticated
                &&& r.0@ == Seq::<u8>::empty()
                &&& r.1 is Ok
            },
            keystream_apply(old(self).secret@, old(self).nonce@, 0, auth@) != auth_token() ==> {
                &&& final(self).state == InboundState::Failed(
                    TunnelError::SecretMismatch(old(self).peer),
                )
                &&& r.0@ == seq![2u8]
                &&& r.1 == Err::<(), TunnelError>(TunnelError::SecretMismatch(old(self).peer))
            },
            inbound_wf(*old(self)) ==> inbound_wf(*final(self)),
    {
        let mut buf: Vec<u8> = Vec::new();
        buf.push(auth[0]);
        buf.push(auth[1]);
        buf.push(auth[2]);
        buf.push(auth[3]);
        proof {
            assert(buf@ =~= auth@);
        }
        let mut cipher = Cipher::new(self.secret, self.nonce);
        cipher.apply_keystream(&mut buf);
        let ghost dec = keystream_apply(self.secret@, self.nonce@, 0, auth@);
        let ok = buf[0] == 0x41 && buf[1] == 0x55 && buf[2] == 0x54 && buf[3] == 0x48;
        proof {
            if ok {
                assert(buf@ =~= auth_token());
            } else {
                assert(buf@ != auth_token());
            }
        }
        if ok {
            self.state = InboundState::Authenticated;
            (Vec::new(), Ok(()))
        } else {
            self.state = InboundState::Failed(TunnelError::SecretMismatch(self.peer));
            let mut out: Vec<u8> = Vec::new();
            out.push(2u8);
            self.sent = Ghost(self.sent@ + out@);
            proof {
                assert(out@ =~= seq![2u8]);
            }
            (out, Err(TunnelError::SecretMismatch(self.peer)))
        }
    }

    /// The auth read exceeded its 5-second limit: fail with `Timeout`.
    /// No reserved byte is emitted.
    pub fn on_timeout(&mut self) -> (e: TunnelError)
        requires
            old(self).state is AwaitAuth,
        ensures
            final(self).secret == old(self).secret,
            final(self).nonce == old(self).nonce,
            final(self).peer == old(self).peer,
            final(self).sent@ == old(self).sent@,
            final(self).state == InboundState::Failed(TunnelError::Timeout(old(self).peer)),
            e == TunnelError::Timeout(old(self).peer),
            inbound_wf(*old(self)) ==> inbound_wf(*final(self)),
    {
        self.state = InboundState::Failed(TunnelError::Timeout(self.peer));
        TunnelError::Timeout(self.peer)
    }

    /// The worker is ready to relay: emit the single readiness byte `0x01`.
    pub fn signal_ready(&mut self) -> (out: Vec<u8>)
        requires
            old(self).state is Authenticated,
        ensures
            final(self).secret == old(self).secret,
            final(self).nonce == old(self).nonce,
            final(self).peer == old(self).peer,
            final(self).state is Ready,
            out@ == seq![1u8],
            final(self).sent@ == old(self).sent@ + seq![1u8],
            inbound_wf(*old(self)) ==> inbound_wf(*final(self)),
    {
        self.state = InboundState::Ready;
        let mut out: Vec<u8> = Vec::new();
        out.push(1u8);
        proof {
            assert(out@ =~= seq![1u8]);
        }
        self.sent = Ghost(self.sent@ + out@);
        out
    }
}

/// Where the outbound machine stands.
#[derive(Clone, Copy, Debug, PartialEq, Eq, Structural)]
pub enum OutboundState {
    /// Dialed; waiting for the 12 nonce bytes.
    AwaitNonce,
    /// Auth token sent; waiting for the reserved byte.
    AwaitReady,
    /// The remote signalled readiness; relay may begin.
    Ready,
    /// Terminal failure.
    Failed(TunnelError),
}

/// The outbound half of the handshake.
pub struct OutboundHandshake {
    pub secret: [u8; 32],
    /// The peer's address, recorded for `Timeout` errors.
    pub peer: u128,
    /// The nonce, once the remote has sent it.
    pub nonce: Option<[u8; 12]>,
    pub state: OutboundState,
    /// Every byte this side has emitted on the wire, oldest first.
    pub sent: Ghost<Seq<u8>>,
}

/// The transcript an outbound machine must have emitted in each state:
/// nothing before the nonce arrives, and afterwards exactly the 4
/// encrypted auth bytes, nothing else.
pub open spec fn outbound_wf(h: OutboundHandshake) -> bool {
    match h.state {
        OutboundState::AwaitNonce => h.sent@ == Seq::<u8>::empty() && h.nonce is None,
        OutboundState::AwaitReady | OutboundState::Ready => h.nonce is Some && h.sent@
            == keystream_apply(h.secret@, h.nonce->Some_0@, 0, auth_token()),
        OutboundState::Failed(e) => match e {
            TunnelError::SecretRejected => h.nonce is Some && h.sent@ == keystream_apply(
                h.secret@,
                h.nonce->Some_0@,
                0,
                auth_token(),
            ),
            _ => h.sent@ == Seq::<u8>::empty(),
        },
    }
}

impl OutboundHandshake {
    /// Dialing side: nothing is written until the nonce arrives.
    pub fn start(secret: [u8; 32], peer: u128) -> (h: OutboundHandshake)
        ensures
            h.secret == secret,
            h.peer == peer,
            h.nonce is None,
            h.state is AwaitNonce,
            h.sent@ == Seq::<u8>::empty(),
            outbound_wf(h),
    {
        OutboundHandshake {
            secret,
            peer,
            nonce: None,
            state: OutboundState::AwaitNonce,
            sent: Ghost(Seq::empty()),
        }
    }

    /// The 12 nonce bytes arrived: encrypt the auth literal with a fresh
    /// cipher and hand back the 4 ciphertext bytes to write.
    pub fn on_nonce(&mut self, nonce: [u8; 12]) -> (out: Vec<u8>)
        requires
            old(self).state is AwaitNonce,
        ensures
            final(self).secret == old(self).secret,
            final(self).peer == old(self).peer,
            final(self).nonce == Some(nonce),
            final(self).state is AwaitReady,
            out@ == keystream_apply(old(self).secret@, nonce@, 0, auth_token()),
            out@.len() == 4,
            final(self).sent@ == old(self).sent@ + out@,
            outbound_wf(*old(self)) ==> outbound_wf(*final(self)),
    {
        let mut buf = auth_plaintext();
        let mut cipher = Cipher::new(self.secret, nonce);
        cipher.apply_keystream(&mut buf);
        self.nonce = Some(nonce);
        self.state = OutboundState::AwaitReady;
        self.sent = Ghost(self.sent@ + buf@);
        buf
    }

    /// End-of-stream before the full nonce: fail with `NonceEarlyEOF`.
    pub fn on_nonce_eof(&mut self) -> (e: TunnelError)
        requires
            old(self).state is AwaitNonce,
        ensures
            final(self).secret == old(self).secret,
            final(self).peer == old(self).peer,
            final(self).nonce == old(self).nonce,
            final(self).sent@ == old(self).sent@,
            final(self).state == OutboundState::Failed(TunnelError::NonceEarlyEOF),
            e == TunnelError::NonceEarlyEOF,
            outbound_wf(*old(self)) ==> outbound_wf(*final(self)),
    {
        self.state = OutboundState::Failed(TunnelError::NonceEarlyEOF);
        TunnelError::NonceEarlyEOF
    }

    /// The nonce read exceeded its 5-second limit: fail with `Timeout`.
    pub fn on_nonce_timeout(&mut self) -> (e: TunnelError)
        requires
            old(self).state is AwaitNonce,
        ensures
            final(self).secret == old(self).secret,
            final(self).peer == old(self).peer,
            final(self).nonce == old(self).nonce,
            final(self).sent@ == old(self).sent@,
            final(self).state == OutboundState::Failed(TunnelError::Timeout(old(self).peer)),
            e == TunnelError::Timeout(old(self).peer),
            outbound_wf(*old(self)) ==> outbound_wf(*final(self)),
    {
        self.state = OutboundState::Failed(TunnelError::Timeout(self.peer));
        TunnelError::Timeout(self.peer)
    }

    /// The reserved byte arrived. `0x02` means the remote rejected our
    /// secret; any other value means the remote is ready to relay.
    pub fn on_ready_byte(&mut self, b: u8) -> (r: Result<(), TunnelError>)
        requires
            old(self).state is AwaitReady,
        ensures
            final(self).secret == old(self).secret,
            final(self).peer == old(self).peer,
            final(self).nonce == old(self).nonce,
            final(self).sent@ == old(self).sent@,
            b == 2 ==> final(self).state == OutboundState::Failed(TunnelError::SecretRejected)
                && r == Err::<(), TunnelError>(TunnelError::SecretRejected),
            b != 2 ==> final(self).state is Ready && r is Ok,
            outbound_wf(*old(self)) ==> outbound_wf(*final(self)),
    {
        if b == 2 {
            self.state = OutboundState::Failed(TunnelError::SecretRejected);
            Err(TunnelError::SecretRejected)
        } else {
            self.state = OutboundState::Ready;
            Ok(())
        }
    }
}

/// Handshake framing: before anything else the inbound side emits exactly
/// the 12 nonce bytes; once authenticated it has still emitted only those;
/// when ready to relay it has emitted exactly one more byte, the readiness
/// byte. The outbound side emits exactly 4 bytes, and only after the nonce
/// arrived.
pub proof fn lemma_handshake_framing(h: InboundHandshake, o: OutboundHandshake)
    requires
        inbound_wf(h),
        outbound_wf(o),
    ensures
        h.state is AwaitAuth ==> h.sent@ == h.nonce@ && h.sent@.len() == 12,
        h.state is Authenticated ==> h.sent@ == h.nonce@ && h.sent@.len() == 12,
        h.state is Ready ==> h.sent@ == h.nonce@ + seq![1u8] && h.sent@.len() == 13,
        o.state is AwaitNonce ==> o.sent@.len() == 0,
        o.state is AwaitReady || o.state is Ready ==> o.sent@.len() == 4,
{
}

/// Both sides of one tunnel derive their keystream from the same
/// (secret, nonce): the auth token the outbound side encrypts decrypts,
/// on the inbound side, back to the auth literal.
pub proof fn lemma_handshake_agreement(secret: Seq<u8>, nonce: Seq<u8>)
    ensures
        keystream_apply(secret, nonce, 0, keystream_apply(secret, nonce, 0, auth_token()))
            == auth_token(),
{
    crate::cipher::lemma_keystream_roundtrip(secret, nonce, 0, auth_token());
}

} // verus!
