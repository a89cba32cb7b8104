use rand::RngCore;
use veloxid::cipher::Cipher;
use veloxid::tunnel::{relay_ciphers, Connection, CopyDirection, CopyStep, Tunnel};

fn forwarded(step: CopyStep) -> Vec<u8> {
    match step {
        CopyStep::Forward(bytes) => bytes,
        CopyStep::Shutdown => panic!("expected a forwarded chunk"),
    }
}

#[test]
fn direct_proxy_is_byte_exact_both_ways() {
    // 1 MiB of random bytes through a direct<->direct pair, both directions.
    let mut data = vec![0u8; 1 << 20];
    rand::thread_rng().fill_bytes(&mut data);

    let pair = relay_ciphers(&Connection::Direct, &Connection::Direct);
    assert!(pair.0.is_empty());
    assert!(pair.1.is_empty());
    let mut a_to_b = CopyDirection::new(pair.0);
    let mut b_to_a = CopyDirection::new(pair.1);

    for dir in [&mut a_to_b, &mut b_to_a] {
        let mut out: Vec<u8> = Vec::new();
        for chunk in data.chunks(8192) {
            out.extend_from_slice(&forwarded(dir.on_read(chunk.to_vec())));
        }
        assert_eq!(out, data);
    }
}

#[test]
fn graceful_close_stops_one_direction_only() {
    let pair = relay_ciphers(&Connection::Direct, &Connection::Direct);
    let mut a_to_b = CopyDirection::new(pair.0);
    let mut b_to_a = CopyDirection::new(pair.1);

    // One side half-closes: that direction shuts down its destination.
    assert!(matches!(a_to_b.on_read(Vec::new()), CopyStep::Shutdown));
    // The other direction continues until its own EOF.
    assert_eq!(forwarded(b_to_a.on_read(b"late reply".to_vec())), b"late reply".to_vec());
    assert!(matches!(b_to_a.on_read(Vec::new()), CopyStep::Shutdown));
}

#[test]
fn tunnel_join_re_encrypts_across_both_keystreams() {
    let tunnel_a = Tunnel { secret: [11u8; 32], nonce: [1u8; 12], is_inbound: true };
    let tunnel_b = Tunnel { secret: [22u8; 32], nonce: [2u8; 12], is_inbound: false };

    let pair = relay_ciphers(
        &Connection::Tunnel(tunnel_a),
        &Connection::Tunnel(tunnel_b),
    );
    assert_eq!(pair.0.len(), 2);
    assert_eq!(pair.1.len(), 2);
    let mut a_to_b = CopyDirection::new(pair.0);

    // Peer A encrypts; the join decrypts with A and re-encrypts with B;
    // peer B decrypts. Several chunks, so the positions must line up.
    let mut peer_a_write = Cipher::new(tunnel_a.secret, tunnel_a.nonce);
    let mut peer_b_read = Cipher::new(tunnel_b.secret, tunnel_b.nonce);
    let message: Vec<u8> = (0..200u8).collect();
    let mut delivered: Vec<u8> = Vec::new();
    for chunk in message.chunks(64) {
        let mut wire = chunk.to_vec();
        peer_a_write.apply_keystream(&mut wire);
        let mut crossed = forwarded(a_to_b.on_read(wire));
        // What leaves the join is under B's keystream, not the plaintext.
        assert_ne!(crossed, chunk.to_vec());
        peer_b_read.apply_keystream(&mut crossed);
        delivered.extend_from_slice(&crossed);
    }
    assert_eq!(delivered, message);
}

#[test]
fn tunnel_direct_run_uses_one_fresh_context_per_direction() {
    let tunnel = Tunnel { secret: [5u8; 32], nonce: [6u8; 12], is_inbound: true };
    let pair = relay_ciphers(&Connection::Tunnel(tunnel), &Connection::Direct);
    assert_eq!(pair.0.len(), 1);
    assert_eq!(pair.1.len(), 1);
    for cipher in pair.0.iter().chain(pair.1.iter()) {
        assert_eq!(cipher.secret, tunnel.secret);
        assert_eq!(cipher.nonce, tunnel.nonce);
        assert_eq!(cipher.pos, 0);
    }

    // Symmetric shape when the tunnel is on the other side.
    let pair = relay_ciphers(&Connection::Direct, &Connection::Tunnel(tunnel));
    assert_eq!(pair.0.len(), 1);
    assert_eq!(pair.1.len(), 1);
}

#[test]
fn copy_direction_advances_its_ciphers() {
    let tunnel = Tunnel { secret: [5u8; 32], nonce: [6u8; 12], is_inbound: false };
    let pair = relay_ciphers(&Connection::Tunnel(tunnel), &Connection::Direct);
    let mut dir = CopyDirection::new(pair.0);
    forwarded(dir.on_read(vec![0u8; 100]));
    assert_eq!(dir.ciphers[0].pos, 100);
    forwarded(dir.on_read(vec![0u8; 28]));
    assert_eq!(dir.ciphers[0].pos, 128);
    // EOF moves nothing.
    assert!(matches!(dir.on_read(Vec::new()), CopyStep::Shutdown));
    assert_eq!(dir.ciphers[0].pos, 128);
}
