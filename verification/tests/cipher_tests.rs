use veloxid::cipher::Cipher;

// The well-known first ChaCha20 keystream bytes for an all-zero key and
// an all-zero nonce (block counter starting at 0).
const ZERO_KEY_KEYSTREAM_8: [u8; 8] = [0x76, 0xb8, 0xe0, 0xad, 0xa0, 0xf1, 0x3d, 0x90];

#[test]
fn keystream_matches_reference_vector() {
    let mut cipher = Cipher::new([0u8; 32], [0u8; 12]);
    let mut buf = vec![0u8; 8];
    cipher.apply_keystream(&mut buf);
    assert_eq!(buf.as_slice(), &ZERO_KEY_KEYSTREAM_8);
    assert_eq!(cipher.pos, 8);
}

#[test]
fn encrypt_decrypt_round_trip() {
    let secret = [7u8; 32];
    let nonce = [9u8; 12];
    let plain: Vec<u8> = (0..=255u8).collect();

    let mut enc = Cipher::new(secret, nonce);
    let mut buf = plain.clone();
    enc.apply_keystream(&mut buf);
    assert_ne!(buf, plain);

    let mut dec = Cipher::new(secret, nonce);
    dec.apply_keystream(&mut buf);
    assert_eq!(buf, plain);
}

#[test]
fn chunked_application_equals_whole() {
    let secret = [42u8; 32];
    let nonce = [1u8; 12];
    let plain: Vec<u8> = (0..100u8).collect();

    let mut whole_cipher = Cipher::new(secret, nonce);
    let mut whole = plain.clone();
    whole_cipher.apply_keystream(&mut whole);

    let mut chunked_cipher = Cipher::new(secret, nonce);
    let mut chunked: Vec<u8> = Vec::new();
    for chunk in plain.chunks(7) {
        let mut piece = chunk.to_vec();
        chunked_cipher.apply_keystream(&mut piece);
        chunked.extend_from_slice(&piece);
    }
    assert_eq!(chunked, whole);
    assert_eq!(chunked_cipher.pos, whole_cipher.pos);
}

#[test]
fn fresh_cipher_starts_at_zero() {
    let cipher = Cipher::new([3u8; 32], [4u8; 12]);
    assert_eq!(cipher.pos, 0);
    assert_eq!(cipher.secret, [3u8; 32]);
    assert_eq!(cipher.nonce, [4u8; 12]);
}
