use chacha20poly1305::aead::Aead;
use chacha20poly1305::{ChaCha20Poly1305, Key, KeyInit, Nonce};
use sandesh::channel::{
    encrypt_and_send, open_frame, seal_frame, ProtocolFault, ReceiveOutcome,
};
use sandesh::frame::encode_frame;

const KEY: [u8; 32] = [
    0x80, 0x81, 0x82, 0x83, 0x84, 0x85, 0x86, 0x87, 0x88, 0x89, 0x8a, 0x8b, 0x8c, 0x8d, 0x8e, 0x8f,
    0x90, 0x91, 0x92, 0x93, 0x94, 0x95, 0x96, 0x97, 0x98, 0x99, 0x9a, 0x9b, 0x9c, 0x9d, 0x9e, 0x9f,
];
const NONCE: [u8; 12] = [0x07, 0, 0, 0, 0x40, 0x41, 0x42, 0x43, 0x44, 0x45, 0x46, 0x47];

fn message(text: &str) -> ReceiveOutcome {
    ReceiveOutcome::Message(text.to_string())
}

#[test]
fn sealed_frame_has_header_nonce_ciphertext_and_tag() {
    let frame = seal_frame(&KEY, &NONCE, "hello").unwrap();
    assert_eq!(frame.len(), 4 + 12 + 5 + 16);
    assert_eq!(&frame[..4], &[0, 0, 0, 33]);
    assert_eq!(&frame[4..16], &NONCE);
    assert_ne!(&frame[16..21], b"hello");
}

#[test]
fn sealing_is_the_cipher_of_the_crate() {
    let cipher = ChaCha20Poly1305::new(Key::from_slice(&KEY));
    let expected = cipher.encrypt(Nonce::from_slice(&NONCE), "hello".as_bytes()).unwrap();
    let frame = seal_frame(&KEY, &NONCE, "hello").unwrap();
    assert_eq!(&frame[16..], &expected[..]);
}

#[test]
fn sealing_matches_the_published_test_vector_for_the_keystream() {
    // With no associated data only the tag differs from the published
    // vector of the cipher; the encrypted bytes of the text are the same.
    let text = "Ladies and Gentlemen of the class of '99: If I could offer you only one tip for the future, sunscreen would be it.";
    let frame = seal_frame(&KEY, &NONCE, text).unwrap();
    assert_eq!(
        &frame[16..32],
        &[
            0xd3, 0x1a, 0x8d, 0x34, 0x64, 0x8e, 0x60, 0xdb, 0x7b, 0x86, 0xaf, 0xbc, 0x53, 0xef,
            0x7e, 0xc2
        ]
    );
    assert_eq!(frame.len(), 4 + 12 + 114 + 16);
}

#[test]
fn round_trip_of_texts() {
    for text in ["hello", "", "a", "héllo wörld", "日本語のメッセージ", "line\nbreak\ttab", "🦀 crab"] {
        let frame = seal_frame(&KEY, &NONCE, text).unwrap();
        let announced = u32::from_be_bytes([frame[0], frame[1], frame[2], frame[3]]) as usize;
        assert_eq!(announced, frame.len() - 4);
        assert_eq!(announced, 12 + text.len() + 16);
        assert_eq!(open_frame(&KEY, &frame[4..]), message(text));
    }
}

#[test]
fn round_trip_with_a_fresh_nonce() {
    let frame = encrypt_and_send(&KEY, "hello").unwrap();
    assert_eq!(frame.len(), 37);
    assert_eq!(&frame[..4], &[0, 0, 0, 33]);
    assert_eq!(open_frame(&KEY, &frame[4..]), message("hello"));
}

#[test]
fn round_trip_of_a_long_text() {
    let text = "x".repeat(100_000);
    let frame = encrypt_and_send(&KEY, &text).unwrap();
    assert_eq!(frame.len(), 4 + 12 + 100_000 + 16);
    assert_eq!(open_frame(&KEY, &frame[4..]), ReceiveOutcome::Message(text));
}

#[test]
fn nonces_do_not_repeat() {
    let mut nonces: Vec<Vec<u8>> = Vec::new();
    for _ in 0..2000 {
        let frame = encrypt_and_send(&KEY, "same text").unwrap();
        nonces.push(frame[4..16].to_vec());
    }
    nonces.sort();
    let before = nonces.len();
    nonces.dedup();
    assert_eq!(nonces.len(), before);
    assert!(nonces.iter().any(|n| n.iter().any(|b| *b != 0)));
}

#[test]
fn any_flipped_bit_fails_decryption() {
    let frame = seal_frame(&KEY, &NONCE, "hello").unwrap();
    let body = &frame[4..];
    for byte in 0..body.len() {
        for bit in 0..8 {
            let mut tampered = body.to_vec();
            tampered[byte] ^= 1 << bit;
            assert_eq!(
                open_frame(&KEY, &tampered),
                ReceiveOutcome::ProtocolError(ProtocolFault::DecryptionFailed),
                "byte {} bit {}",
                byte,
                bit
            );
        }
    }
}

#[test]
fn wrong_key_fails_decryption() {
    let frame = seal_frame(&KEY, &NONCE, "hello").unwrap();
    let mut other = KEY;
    other[31] ^= 1;
    assert_eq!(
        open_frame(&other, &frame[4..]),
        ReceiveOutcome::ProtocolError(ProtocolFault::DecryptionFailed)
    );
}

#[test]
fn garbage_fails_decryption() {
    assert_eq!(
        open_frame(&KEY, &[0u8; 12]),
        ReceiveOutcome::ProtocolError(ProtocolFault::DecryptionFailed)
    );
    assert_eq!(
        open_frame(&KEY, &[0x55u8; 40]),
        ReceiveOutcome::ProtocolError(ProtocolFault::DecryptionFailed)
    );
    let frame = seal_frame(&KEY, &NONCE, "hello").unwrap();
    assert_eq!(
        open_frame(&KEY, &frame[4..frame.len() - 1]),
        ReceiveOutcome::ProtocolError(ProtocolFault::DecryptionFailed)
    );
}

#[test]
fn body_shorter_than_a_nonce_is_a_short_frame() {
    assert_eq!(open_frame(&KEY, &[]), ReceiveOutcome::ProtocolError(ProtocolFault::ShortFrame));
    assert_eq!(
        open_frame(&KEY, &[1u8; 11]),
        ReceiveOutcome::ProtocolError(ProtocolFault::ShortFrame)
    );
}

#[test]
fn plaintext_that_is_no_text_is_refused() {
    let cipher = ChaCha20Poly1305::new(Key::from_slice(&KEY));
    for bytes in [&[0xFFu8, 0xFE][..], &[0xC3][..], &[b'o', b'k', 0x80][..], &[0xED, 0xA0, 0x80][..]] {
        let ciphertext = cipher.encrypt(Nonce::from_slice(&NONCE), bytes).unwrap();
        let frame = encode_frame(&NONCE, &ciphertext).unwrap();
        assert_eq!(
            open_frame(&KEY, &frame[4..]),
            ReceiveOutcome::ProtocolError(ProtocolFault::InvalidText)
        );
    }
}

#[test]
fn frame_of_the_cipher_opens_here() {
    let cipher = ChaCha20Poly1305::new(Key::from_slice(&KEY));
    let ciphertext = cipher.encrypt(Nonce::from_slice(&NONCE), "from them".as_bytes()).unwrap();
    let mut body = NONCE.to_vec();
    body.extend_from_slice(&ciphertext);
    assert_eq!(open_frame(&KEY, &body), message("from them"));
}
