use veloxid::encryption::{generate_random_nonce, generate_secret_from_string};

// SHA-256("abc"), the classic reference vector.
const SHA256_ABC: [u8; 32] = [
    0xba, 0x78, 0x16, 0xbf, 0x8f, 0x01, 0xcf, 0xea, 0x41, 0x41, 0x40, 0xde, 0x5d, 0xae, 0x22,
    0x23, 0xb0, 0x03, 0x61, 0xa3, 0x96, 0x17, 0x7a, 0x9c, 0xb4, 0x10, 0xff, 0x61, 0xf2, 0x00,
    0x15, 0xad,
];

// SHA-256 of the empty string.
const SHA256_EMPTY: [u8; 32] = [
    0xe3, 0xb0, 0xc4, 0x42, 0x98, 0xfc, 0x1c, 0x14, 0x9a, 0xfb, 0xf4, 0xc8, 0x99, 0x6f, 0xb9,
    0x24, 0x27, 0xae, 0x41, 0xe4, 0x64, 0x9b, 0x93, 0x4c, 0xa4, 0x95, 0x99, 0x1b, 0x78, 0x52,
    0xb8, 0x55,
];

#[test]
fn secret_is_sha256_of_string() {
    assert_eq!(generate_secret_from_string("abc".to_string()), SHA256_ABC);
    assert_eq!(generate_secret_from_string(String::new()), SHA256_EMPTY);
}

#[test]
fn same_string_same_secret() {
    let a = generate_secret_from_string("s".to_string());
    let b = generate_secret_from_string("s".to_string());
    assert_eq!(a, b);
    let c = generate_secret_from_string("t".to_string());
    assert_ne!(a, c);
}

#[test]
fn nonces_are_twelve_bytes_and_vary() {
    let a = generate_random_nonce();
    let b = generate_random_nonce();
    assert_eq!(a.len(), 12);
    // 96 random bits colliding across two draws would be astonishing.
    assert_ne!(a, b);
}
