use encrypted_chat::codec::{decrypt_message, encrypt_message, encrypt_with_nonce, AuthenticationError, TAG_LEN};

const KEY: &[u8; 32] = b"anexampleverysecurekey32bytes!!!";

#[test]
fn round_trip_recovers_plaintext() {
    for msg in [&b""[..], &b"hello"[..], &b"hi there"[..], &[0u8; 1000][..]] {
        let (ciphertext, nonce) = encrypt_message(msg, KEY);
        assert_eq!(ciphertext.len(), msg.len() + TAG_LEN);
        assert_eq!(decrypt_message(&ciphertext, nonce, KEY), Ok(msg.to_vec()));
    }
}

#[test]
fn ciphertext_differs_from_plaintext() {
    let msg = b"attack at dawn";
    let (ciphertext, _) = encrypt_message(msg, KEY);
    assert_ne!(&ciphertext[..msg.len()], &msg[..]);
}

#[test]
fn nonces_are_fresh() {
    let (c1, n1) = encrypt_message(b"same message", KEY);
    let (c2, n2) = encrypt_message(b"same message", KEY);
    assert_ne!(n1, n2);
    assert_ne!(c1, c2);
}

#[test]
fn encryption_is_deterministic_for_a_fixed_nonce() {
    let nonce = [7u8; 12];
    let c1 = encrypt_with_nonce(b"hello", &nonce, KEY);
    let c2 = encrypt_with_nonce(b"hello", &nonce, KEY);
    assert_eq!(c1, c2);
    assert_eq!(decrypt_message(&c1, nonce, KEY), Ok(b"hello".to_vec()));
}

#[test]
fn known_answer_all_zero() {
    // AES-256-GCM, zero key, zero nonce, empty message: the tag alone.
    let tag = encrypt_with_nonce(b"", &[0u8; 12], &[0u8; 32]);
    let expected: [u8; 16] = [
        0x53, 0x0f, 0x8a, 0xfb, 0xc7, 0x45, 0x36, 0xb9, 0xa9, 0x63, 0xb4, 0xf1, 0xc4, 0xcb, 0x73, 0x8b,
    ];
    assert_eq!(tag, expected.to_vec());
}

#[test]
fn flipped_ciphertext_bit_fails_authentication() {
    let (ciphertext, nonce) = encrypt_message(b"hello", KEY);
    for byte in 0..ciphertext.len() {
        for bit in 0..8 {
            let mut tampered = ciphertext.clone();
            tampered[byte] ^= 1 << bit;
            assert_eq!(decrypt_message(&tampered, nonce, KEY), Err(AuthenticationError));
        }
    }
}

#[test]
fn flipped_nonce_bit_fails_authentication() {
    let (ciphertext, nonce) = encrypt_message(b"hello", KEY);
    for byte in 0..12 {
        for bit in 0..8 {
            let mut tampered = nonce;
            tampered[byte] ^= 1 << bit;
            assert_eq!(decrypt_message(&ciphertext, tampered, KEY), Err(AuthenticationError));
        }
    }
}

#[test]
fn wrong_key_fails_authentication() {
    let (ciphertext, nonce) = encrypt_message(b"hello", KEY);
    let other = [1u8; 32];
    assert_eq!(decrypt_message(&ciphertext, nonce, &other), Err(AuthenticationError));
}

#[test]
fn ciphertext_shorter_than_tag_fails_authentication() {
    assert_eq!(decrypt_message(&[0u8; 5], [0u8; 12], KEY), Err(AuthenticationError));
    assert_eq!(decrypt_message(&[], [0u8; 12], KEY), Err(AuthenticationError));
}
