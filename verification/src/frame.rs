//! The wire format of one encrypted message: a four-byte big-endian length,
//! then the twelve-byte nonce, then the ciphertext.

use byteorder::{BigEndian, ByteOrder};
use vstd::prelude::*;

verus! {

/// The number of bytes of a frame's length prefix.
pub const HEADER_LEN: usize = 4;

/// The number of bytes of a nonce.
pub const NONCE_LEN: usize = 12;

/// Why a frame cannot be built or read.
#[derive(Clone, Copy, Debug, PartialEq, Eq, Structural)]
pub enum FrameError {
    /// Nonce and ciphertext together do not fit the four-byte length prefix.
    TooLong,
    /// The length prefix announces fewer bytes than a nonce has.
    TooShort,
}

/// The four bytes that stand for `n`, most significant byte first.
pub open spec fn be_bytes(n: u32) -> Seq<u8> {
    seq![
        (n / 0x100_0000) as u8,
        ((n / 0x1_0000) % 0x100) as u8,
        ((n / 0x100) % 0x100) as u8,
        (n % 0x100) as u8,
    ]
}

/// The number that the first four bytes of `bytes` stand for, most
/// significant byte first.
pub open spec fn be_value(bytes: Seq<u8>) -> int {
    bytes[0] * 0x100_0000 + bytes[1] * 0x1_0000 + bytes[2] * 0x100 + bytes[3]
}

/// Reading the four bytes written for `n` gives `n` back.
pub proof fn lemma_be_value_of_bytes(n: u32)
    ensures
        be_bytes(n).len() == 4,
        be_value(be_bytes(n)) == n,
{
    let v = n as int;
    assert((v / 0x100_0000) * 0x100_0000 + ((v / 0x1_0000) % 0x100) * 0x1_0000 + ((v / 0x100)
        % 0x100) * 0x100 + v % 0x100 == v) by (nonlinear_arith)
        requires
            0 <= v <= 0xFFFF_FFFF,
    ;
    assert(v / 0x100_0000 < 0x100) by (nonlinear_arith)
        requires
            0 <= v <= 0xFFFF_FFFF,
    ;
}

/// Writing the number read from four bytes gives the four bytes back.
pub proof fn lemma_be_bytes_of_value(bytes: Seq<u8>)
    requires
        bytes.len() == 4,
    ensures
        0 <= be_value(bytes) <= u32::MAX,
        be_bytes(be_value(bytes) as u32) == bytes,
{
    let b0 = bytes[0] as int;
    let b1 = bytes[1] as int;
    let b2 = bytes[2] as int;
    let b3 = bytes[3] as int;
    let v = be_value(bytes);
    assert(v == b0 * 0x100_0000 + b1 * 0x1_0000 + b2 * 0x100 + b3);
    assert(v / 0x100_0000 == b0) by (nonlinear_arith)
        requires
            v == b0 * 0x100_0000 + b1 * 0x1_0000 + b2 * 0x100 + b3,
            0 <= b0 < 256,
            0 <= b1 < 256,
            0 <= b2 < 256,
            0 <= b3 < 256,
    ;
    assert((v / 0x1_0000) % 0x100 == b1) by (nonlinear_arith)
        requires
            v == b0 * 0x100_0000 + b1 * 0x1_0000 + b2 * 0x100 + b3,
            0 <= b0 < 256,
            0 <= b1 < 256,
            0 <= b2 < 256,
            0 <= b3 < 256,
    ;
    assert((v / 0x100) % 0x100 == b2) by (nonlinear_arith)
        requires
            v == b0 * 0x100_0000 + b1 * 0x1_0000 + b2 * 0x100 + b3,
            0 <= b0 < 256,
            0 <= b1 < 256,
            0 <= b2 < 256,
            0 <= b3 < 256,
    ;
    assert(v % 0x100 == b3) by (nonlinear_arith)
        requires
            v == b0 * 0x100_0000 + b1 * 0x1_0000 + b2 * 0x100 + b3,
            0 <= b0 < 256,
            0 <= b1 < 256,
            0 <= b2 < 256,
            0 <= b3 < 256,
    ;
    assert(be_bytes(v as u32) =~= bytes);
}

/// Calls `byteorder::BigEndian::write_u32` on a fresh four-byte buffer.
///
/// Trusted: the buffer then holds `n` with its most significant byte first,
/// as the crate documents for the big-endian order.
#[verifier::external_body]
fn write_be_u32(n: u32) -> (bytes: [u8; 4])
    ensures
        bytes@ == be_bytes(n),
{
    let mut bytes = [0u8; 4];
    BigEndian::write_u32(&mut bytes, n);
    bytes
}

/// Calls `byteorder::BigEndian::read_u32` on four bytes.
///
/// Trusted: the result is the number whose most significant byte comes
/// first, as the crate documents; with four bytes given the call cannot
/// panic.
#[verifier::external_body]
fn read_be_u32(bytes: &[u8; 4]) -> (n: u32)
    ensures
        n == be_value(bytes@),
{
    BigEndian::read_u32(bytes)
}

/// The frame that carries `ciphertext` under `nonce`.
pub open spec fn frame_of(nonce: Seq<u8>, ciphertext: Seq<u8>) -> Seq<u8> {
    be_bytes((nonce.len() + ciphertext.len()) as u32) + nonce + ciphertext
}

/// Whether nonce and ciphertext fit the length prefix.
pub open spec fn fits_frame(ciphertext_len: nat) -> bool {
    NONCE_LEN + ciphertext_len <= u32::MAX
}

/// Builds the frame for a ciphertext and its nonce, or reports that the two
/// are too long for the length prefix.
pub fn encode_frame(nonce: &[u8; 12], ciphertext: &[u8]) -> (frame: Result<Vec<u8>, FrameError>)
    ensures
        match frame {
            Ok(bytes) => fits_frame(ciphertext@.len()) && bytes@ == frame_of(nonce@, ciphertext@),
            Err(e) => !fits_frame(ciphertext@.len()) && e == FrameError::TooLong,
        },
{
    if ciphertext.len() as u64 > u32::MAX as u64 - NONCE_LEN as u64 {
        return Err(FrameError::TooLong);
    }
    let total: u32 = (ciphertext.len() + NONCE_LEN) as u32;
    let header = write_be_u32(total);
    let mut bytes: Vec<u8> = Vec::new();
    bytes.extend_from_slice(header.as_slice());
    bytes.extend_from_slice(nonce.as_slice());
    bytes.extend_from_slice(ciphertext);
    Ok(bytes)
}

/// The number of bytes that follow a header, or `TooShort` where the header
/// announces fewer than a nonce has.
pub open spec fn announced_length(header: Seq<u8>) -> Result<u32, FrameError> {
    if be_value(header) >= NONCE_LEN {
        Ok(be_value(header) as u32)
    } else {
        Err(FrameError::TooShort)
    }
}

/// Reads a frame's length prefix.
pub fn decode_length(header: &[u8; 4]) -> (length: Result<u32, FrameError>)
    ensures
        length == announced_length(header@),
{
    let n = read_be_u32(header);
    if n < NONCE_LEN as u32 {
        Err(FrameError::TooShort)
    } else {
        Ok(n)
    }
}

/// Splits what follows the header into the nonce and the ciphertext; `None`
/// where fewer bytes than a nonce has are given.
pub fn split_body(body: &[u8]) -> (parts: Option<([u8; 12], &[u8])>)
    ensures
        match parts {
            Some((nonce, ciphertext)) => body@.len() >= NONCE_LEN && nonce@ == body@.subrange(
                0,
                NONCE_LEN as int,
            ) && ciphertext@ == body@.subrange(NONCE_LEN as int, body@.len() as int),
            None => body@.len() < NONCE_LEN,
        },
{
    if body.len() < NONCE_LEN {
        return None;
    }
    let mut nonce: [u8; 12] = [0u8; 12];
    let mut i: usize = 0;
    while i < NONCE_LEN
        invariant
            i <= NONCE_LEN,
            body@.len() >= NONCE_LEN,
            forall|k: int| 0 <= k < i ==> nonce@[k] == body@[k],
        decreases NONCE_LEN - i,
    {
        nonce[i] = body[i];
        i += 1;
    }
    let ciphertext = vstd::slice::slice_subrange(body, NONCE_LEN, body.len());
    assert(nonce@ =~= body@.subrange(0, NONCE_LEN as int));
    Some((nonce, ciphertext))
}

/// The layout of a frame: its header announces the twelve bytes of the nonce
/// plus the length of the ciphertext, and nonce and ciphertext follow intact.
pub proof fn lemma_frame_layout(nonce: Seq<u8>, ciphertext: Seq<u8>)
    requires
        nonce.len() == NONCE_LEN,
        fits_frame(ciphertext.len()),
    ensures
        frame_of(nonce, ciphertext).len() == HEADER_LEN + NONCE_LEN + ciphertext.len(),
        be_value(frame_of(nonce, ciphertext).subrange(0, HEADER_LEN as int)) == NONCE_LEN
            + ciphertext.len(),
        announced_length(frame_of(nonce, ciphertext).subrange(0, HEADER_LEN as int)) == Ok::<
            u32,
            FrameError,
        >((NONCE_LEN + ciphertext.len()) as u32),
        frame_of(nonce, ciphertext).subrange(
            HEADER_LEN as int,
            HEADER_LEN + NONCE_LEN + ciphertext.len(),
        ) == nonce + ciphertext,
        (nonce + ciphertext).subrange(0, NONCE_LEN as int) == nonce,
        (nonce + ciphertext).subrange(NONCE_LEN as int, NONCE_LEN + ciphertext.len())
            == ciphertext,
{
    let total = (nonce.len() + ciphertext.len()) as u32;
    let frame = frame_of(nonce, ciphertext);
    lemma_be_value_of_bytes(total);
    assert(frame.subrange(0, HEADER_LEN as int) =~= be_bytes(total));
    assert(frame.subrange(HEADER_LEN as int, HEADER_LEN + NONCE_LEN + ciphertext.len()) =~= nonce
        + ciphertext);
    assert((nonce + ciphertext).subrange(0, NONCE_LEN as int) =~= nonce);
    assert((nonce + ciphertext).subrange(NONCE_LEN as int, NONCE_LEN + ciphertext.len())
        =~= ciphertext);
}

} // verus!
