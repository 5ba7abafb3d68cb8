//! The secure framed channel: sealing a text into a frame, and opening what
//! follows a frame's header into a text.

use crate::cipher::{fresh_nonce, open, opened, seal, seal_limit, sealed, TAG_LEN};
use crate::frame::{
    announced_length, encode_frame, fits_frame, frame_of, lemma_frame_layout, split_body,
    FrameError, HEADER_LEN, NONCE_LEN,
};
use vstd::prelude::*;
use vstd::string::StringSliceAdditionalSpecFns;
use vstd::utf8::{decode_utf8, encode_utf8, valid_utf8};

verus! {

/// Why a message was not turned into a frame.
#[derive(Clone, Copy, Debug, PartialEq, Eq, Structural)]
pub enum SendError {
    /// The cipher refused the message.
    EncryptionFailed,
    /// Nonce and ciphertext do not fit the frame's length prefix.
    TooLong,
}

/// What is wrong with a frame, or with the way it arrived.
#[derive(Clone, Copy, Debug, PartialEq, Eq, Structural)]
pub enum ProtocolFault {
    /// The length prefix announces fewer bytes than a nonce has.
    ShortFrame,
    /// The transport failed otherwise than by ending.
    Transport,
    /// The ciphertext does not authenticate under the session key.
    DecryptionFailed,
    /// The plaintext is not UTF-8.
    InvalidText,
}

/// The result of one poll of the channel.
#[derive(Debug, PartialEq, Eq)]
pub enum ReceiveOutcome {
    /// A message arrived and authenticated.
    Message(String),
    /// No complete header is waiting yet.
    WouldBlock,
    /// The peer closed the connection.
    Disconnected,
    /// The frame, or the transport, is faulty.
    ProtocolError(ProtocolFault),
}

/// A poll's result with the text of a message as a sequence of characters.
pub enum Received {
    Message(Seq<char>),
    WouldBlock,
    Disconnected,
    ProtocolError(ProtocolFault),
}

impl View for ReceiveOutcome {
    type V = Received;

    open spec fn view(&self) -> Received {
        match self {
            ReceiveOutcome::Message(text) => Received::Message(text@),
            ReceiveOutcome::WouldBlock => Received::WouldBlock,
            ReceiveOutcome::Disconnected => Received::Disconnected,
            ReceiveOutcome::ProtocolError(fault) => Received::ProtocolError(*fault),
        }
    }
}

/// The frame for `text` under `key` and `nonce`, or why there is none.
pub open spec fn sealed_frame(key: Seq<u8>, nonce: Seq<u8>, text: Seq<char>) -> Result<
    Seq<u8>,
    SendError,
> {
    match sealed(key, nonce, encode_utf8(text)) {
        None => Err(SendError::EncryptionFailed),
        Some(ciphertext) => if fits_frame(ciphertext.len()) {
            Ok(frame_of(nonce, ciphertext))
        } else {
            Err(SendError::TooLong)
        },
    }
}

/// A frame as the bytes it holds.
pub open spec fn frame_view(frame: Result<Vec<u8>, SendError>) -> Result<Seq<u8>, SendError> {
    match frame {
        Ok(bytes) => Ok(bytes@),
        Err(e) => Err(e),
    }
}

/// Seals `message` under `key` and `nonce` and frames the result.
///
/// A message whose UTF-8 bytes, with nonce and tag, fit the length prefix is
/// always framed, and the frame is ciphertext, nonce and header long.
pub fn seal_frame(key: &[u8; 32], nonce: &[u8; 12], message: &str) -> (frame: Result<
    Vec<u8>,
    SendError,
>)
    ensures
        frame_view(frame) == sealed_frame(key@, nonce@, message@),
        frame is Ok <==> fits_frame(encode_utf8(message@).len() + TAG_LEN as nat),
        frame matches Ok(bytes) ==> bytes@.len() == HEADER_LEN + NONCE_LEN + encode_utf8(
            message@,
        ).len() + TAG_LEN,
        frame matches Err(e) ==> e == (if encode_utf8(message@).len() < seal_limit() {
            SendError::TooLong
        } else {
            SendError::EncryptionFailed
        }),
{
    let plaintext = message.as_bytes();
    match seal(key, nonce, plaintext) {
        None => Err(SendError::EncryptionFailed),
        Some(ciphertext) => match encode_frame(nonce, ciphertext.as_slice()) {
            Ok(bytes) => Ok(bytes),
            Err(_) => Err(SendError::TooLong),
        },
    }
}

/// Seals `message` under `key` and a nonce drawn fresh from the operating
/// system, and returns the frame to put on the wire.
pub fn encrypt_and_send(key: &[u8; 32], message: &str) -> (frame: Result<Vec<u8>, SendError>)
    ensures
        exists|nonce: Seq<u8>|
            nonce.len() == NONCE_LEN && frame_view(frame) == #[trigger] sealed_frame(
                key@,
                nonce,
                message@,
            ),
        frame is Ok <==> fits_frame(encode_utf8(message@).len() + TAG_LEN as nat),
        frame matches Ok(bytes) ==> bytes@.len() == HEADER_LEN + NONCE_LEN + encode_utf8(
            message@,
        ).len() + TAG_LEN,
{
    let nonce = fresh_nonce();
    let frame = seal_frame(key, &nonce, message);
    assert(frame_view(frame) == sealed_frame(key@, nonce@, message@));
    frame
}

/// Calls `String::from_utf8` of std.
///
/// Trusted: the bytes become a string exactly if they are valid UTF-8, and
/// the string is then the text that they encode.
#[verifier::external_body]
fn decode_text(bytes: Vec<u8>) -> (text: Option<String>)
    ensures
        text is Some <==> valid_utf8(bytes@),
        text matches Some(s) ==> s@ == decode_utf8(bytes@),
{
    String::from_utf8(bytes).ok()
}

/// What the body of a frame, nonce first, opens to under `key`.
pub open spec fn opened_body(key: Seq<u8>, body: Seq<u8>) -> Received {
    if body.len() < NONCE_LEN {
        Received::ProtocolError(ProtocolFault::ShortFrame)
    } else {
        match opened(
            key,
            body.subrange(0, NONCE_LEN as int),
            body.subrange(NONCE_LEN as int, body.len() as int),
        ) {
            None => Received::ProtocolError(ProtocolFault::DecryptionFailed),
            Some(plaintext) => if valid_utf8(plaintext) {
                Received::Message(decode_utf8(plaintext))
            } else {
                Received::ProtocolError(ProtocolFault::InvalidText)
            },
        }
    }
}

/// Opens the body of a frame: splits off the nonce, decrypts the rest under
/// `key` and decodes the plaintext as text.
///
/// The body that `seal_frame` made for a text under the same key opens to
/// that text.
pub fn open_frame(key: &[u8; 32], body: &[u8]) -> (outcome: ReceiveOutcome)
    ensures
        outcome@ == opened_body(key@, body@),
        forall|text: Seq<char>|
            body@.len() >= NONCE_LEN && sealed(
                key@,
                body@.subrange(0, NONCE_LEN as int),
                #[trigger] encode_utf8(text),
            ) == Some(body@.subrange(NONCE_LEN as int, body@.len() as int)) ==> outcome@
                == Received::Message(text),
{
    match split_body(body) {
        None => ReceiveOutcome::ProtocolError(ProtocolFault::ShortFrame),
        Some((nonce, ciphertext)) => match open(key, &nonce, ciphertext) {
            None => ReceiveOutcome::ProtocolError(ProtocolFault::DecryptionFailed),
            Some(plaintext) => {
                proof {
                    assert forall|text: Seq<char>|
                        sealed(key@, nonce@, #[trigger] encode_utf8(text)) == Some(
                            ciphertext@,
                        ) implies valid_utf8(plaintext@) && decode_utf8(plaintext@) == text by {
                        vstd::utf8::encode_utf8_valid_utf8(text);
                        vstd::utf8::encode_utf8_decode_utf8(text);
                    }
                }
                match decode_text(plaintext) {
                    Some(text) => ReceiveOutcome::Message(text),
                    None => ReceiveOutcome::ProtocolError(ProtocolFault::InvalidText),
                }
            },
        },
    }
}

/// What is sent is what is received: the frame that carries a sealed text
/// announces in its header the twelve bytes of the nonce plus the length of
/// the ciphertext, and what follows the header is a body that `open_frame`
/// and `receive_and_decrypt` open to that text under the same key.
pub proof fn lemma_sealed_frame_opens(key: Seq<u8>, nonce: Seq<u8>, text: Seq<char>, frame: Seq<u8>)
    requires
        nonce.len() == NONCE_LEN,
        sealed_frame(key, nonce, text) == Ok::<Seq<u8>, SendError>(frame),
    ensures
        sealed(key, nonce, encode_utf8(text)) matches Some(ciphertext) && ({
            let body = frame.subrange(HEADER_LEN as int, frame.len() as int);
            &&& frame.len() == HEADER_LEN + NONCE_LEN + ciphertext.len()
            &&& announced_length(frame.subrange(0, HEADER_LEN as int)) == Ok::<u32, FrameError>(
                (NONCE_LEN + ciphertext.len()) as u32,
            )
            &&& body.len() == NONCE_LEN + ciphertext.len()
            &&& body.subrange(0, NONCE_LEN as int) == nonce
            &&& body.subrange(NONCE_LEN as int, body.len() as int) == ciphertext
        }),
{
    let ciphertext = sealed(key, nonce, encode_utf8(text))->0;
    lemma_frame_layout(nonce, ciphertext);
}

} // verus!
