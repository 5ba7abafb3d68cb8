//! The authenticated cipher of a session and the source of its nonces.
//!
//! Encryption and decryption are the work of the `chacha20poly1305` crate and
//! the nonces come from the operating system through `rand`. What this module
//! states of them is believed, not proved.

use chacha20poly1305::aead::Aead;
use chacha20poly1305::{ChaCha20Poly1305, Key, KeyInit, Nonce};
use rand::rngs::OsRng;
use rand::RngCore;
use vstd::prelude::*;

verus! {

/// The number of bytes of a session key.
pub const KEY_LEN: usize = 32;

/// The number of bytes that the cipher appends to a message to authenticate
/// it.
pub const TAG_LEN: usize = 16;

/// The length from which on the cipher refuses a message: as many bytes as
/// its block counter can number, 64 bytes to the block.
pub open spec fn seal_limit() -> nat {
    64 * 0xFFFF_FFFF
}

/// What ChaCha20-Poly1305 makes of `plaintext` under `key` and `nonce`, with
/// no associated data: the ciphertext with its tag, or `None` where the cipher
/// refuses the message.
pub uninterp spec fn sealed(key: Seq<u8>, nonce: Seq<u8>, plaintext: Seq<u8>) -> Option<Seq<u8>>;

/// What ChaCha20-Poly1305 recovers from `ciphertext` under `key` and `nonce`,
/// with no associated data: the plaintext, or `None` where the ciphertext
/// does not authenticate.
pub uninterp spec fn opened(key: Seq<u8>, nonce: Seq<u8>, ciphertext: Seq<u8>) -> Option<Seq<u8>>;

/// The bytes that an optional buffer holds.
pub open spec fn bytes_view(bytes: Option<Vec<u8>>) -> Option<Seq<u8>> {
    match bytes {
        Some(b) => Some(b@),
        None => None,
    }
}

/// Calls `Aead::encrypt` of `chacha20poly1305::ChaCha20Poly1305`, keyed with
/// `key`, on `plaintext` under `nonce`.
///
/// Trusted: the result is a function of the three arguments, named `sealed`;
/// the cipher refuses exactly the messages of `seal_limit()` bytes or more;
/// and a ciphertext is the message's length plus the 16 bytes of the tag.
#[verifier::external_body]
pub(crate) fn seal(key: &[u8; 32], nonce: &[u8; 12], plaintext: &[u8]) -> (ciphertext: Option<
    Vec<u8>,
>)
    ensures
        bytes_view(ciphertext) == sealed(key@, nonce@, plaintext@),
        ciphertext is Some <==> plaintext@.len() < seal_limit(),
        ciphertext matches Some(bytes) ==> bytes@.len() == plaintext@.len() + TAG_LEN,
{
    let cipher = ChaCha20Poly1305::new(Key::from_slice(key));
    cipher.encrypt(Nonce::from_slice(nonce), plaintext).ok()
}

/// Calls `Aead::decrypt` of `chacha20poly1305::ChaCha20Poly1305`, keyed with
/// `key`, on `ciphertext` under `nonce`.
///
/// Trusted: the result is a function of the three arguments, named `opened`;
/// and what the cipher sealed under a key and a nonce it opens under the same
/// two to the message that was sealed.
#[verifier::external_body]
pub(crate) fn open(key: &[u8; 32], nonce: &[u8; 12], ciphertext: &[u8]) -> (plaintext: Option<
    Vec<u8>,
>)
    ensures
        bytes_view(plaintext) == opened(key@, nonce@, ciphertext@),
        forall|message: Seq<u8>| #[trigger]
            sealed(key@, nonce@, message) == Some(ciphertext@) ==> bytes_view(plaintext) == Some(
                message,
            ),
{
    let cipher = ChaCha20Poly1305::new(Key::from_slice(key));
    cipher.decrypt(Nonce::from_slice(nonce), ciphertext).ok()
}

/// Calls `RngCore::fill_bytes` of `rand::rngs::OsRng` on twelve bytes.
///
/// Nothing is stated of the bytes: they are whatever the operating system's
/// generator gave. The call ends the process where the system has no
/// randomness to give.
#[verifier::external_body]
pub(crate) fn fresh_nonce() -> (nonce: [u8; 12]) {
    let mut nonce = [0u8; 12];
    OsRng.fill_bytes(&mut nonce);
    nonce
}

} // verus!
