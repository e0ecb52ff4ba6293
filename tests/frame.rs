use encrypted_chat::frame::{build_frame, split_frame, FrameTooShortError};

#[test]
fn short_buffers_are_rejected() {
    for len in 0..12 {
        let buffer = vec![0xabu8; len];
        assert_eq!(split_frame(&buffer), Err(FrameTooShortError));
    }
}

#[test]
fn nonce_only_frame_splits() {
    let buffer: Vec<u8> = (0u8..12).collect();
    let (nonce, ciphertext) = split_frame(&buffer).unwrap();
    assert_eq!(nonce.to_vec(), buffer);
    assert!(ciphertext.is_empty());
}

#[test]
fn longer_frame_splits_at_twelve() {
    let buffer: Vec<u8> = (0u8..40).collect();
    let (nonce, ciphertext) = split_frame(&buffer).unwrap();
    assert_eq!(nonce.len(), 12);
    assert_eq!(nonce.to_vec(), (0u8..12).collect::<Vec<u8>>());
    assert_eq!(ciphertext, (12u8..40).collect::<Vec<u8>>());
}

#[test]
fn build_then_split() {
    let nonce = [9u8; 12];
    let frame = build_frame(&nonce, b"ciphertext");
    assert_eq!(frame.len(), 22);
    assert_eq!(&frame[..12], &nonce[..]);
    assert_eq!(&frame[12..], b"ciphertext");
    assert_eq!(split_frame(&frame), Ok((nonce, b"ciphertext".to_vec())));
}
