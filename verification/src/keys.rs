//! The key agreement of a session: an ephemeral X25519 exchange, one key
//! pair to the handshake and one shared secret out of it.
//!
//! The curve arithmetic is the work of the `x25519-dalek` crate. What this
//! module states of it is believed, not proved.

use rand::rngs::OsRng;
use vstd::prelude::*;

verus! {

/// The public key that X25519 derives from the 32 bytes of a secret key.
pub uninterp spec fn x25519_public(secret: Seq<u8>) -> Seq<u8>;

/// The shared secret that X25519 derives from the 32 bytes of one side's
/// secret key and the 32 bytes of the other side's public key.
pub uninterp spec fn x25519_shared(secret: Seq<u8>, their_public: Seq<u8>) -> Seq<u8>;

/// Calls `x25519_dalek::StaticSecret::random_from_rng` with the operating
/// system's generator and takes the secret's bytes.
///
/// Nothing is stated of the bytes: they are whatever the generator gave. The
/// call ends the process where the system has no randomness to give.
#[verifier::external_body]
fn random_secret() -> (secret: [u8; 32]) {
    x25519_dalek::StaticSecret::random_from_rng(OsRng).to_bytes()
}

/// Calls `PublicKey::from` of `x25519_dalek` on the secret key that the bytes
/// stand for.
///
/// Trusted: the public key is a function of the secret's bytes, named
/// `x25519_public`.
#[verifier::external_body]
fn derive_public(secret: &[u8; 32]) -> (public: [u8; 32])
    ensures
        public@ == x25519_public(secret@),
{
    let secret = x25519_dalek::StaticSecret::from(*secret);
    x25519_dalek::PublicKey::from(&secret).to_bytes()
}

/// Calls `x25519_dalek::StaticSecret::diffie_hellman` on the secret key and
/// the public key that the bytes stand for.
///
/// Trusted: the shared secret is a function of the two, named
/// `x25519_shared`.
#[verifier::external_body]
fn derive_shared(secret: &[u8; 32], their_public: &[u8; 32]) -> (shared: [u8; 32])
    ensures
        shared@ == x25519_shared(secret@, their_public@),
{
    let secret = x25519_dalek::StaticSecret::from(*secret);
    let their_public = x25519_dalek::PublicKey::from(*their_public);
    secret.diffie_hellman(&their_public).to_bytes()
}

/// A secret key made for one handshake. It cannot be copied, and computing
/// the shared secret uses it up.
pub struct EphemeralSecret {
    bytes: [u8; 32],
}

impl View for EphemeralSecret {
    type V = Seq<u8>;

    /// The 32 bytes of the secret.
    closed spec fn view(&self) -> Seq<u8> {
        self.bytes@
    }
}

/// A public key, as the 32 bytes that go over the wire.
#[derive(Clone, Copy, Debug, PartialEq, Eq)]
pub struct PublicKey {
    bytes: [u8; 32],
}

impl View for PublicKey {
    type V = Seq<u8>;

    /// The 32 bytes of the key.
    closed spec fn view(&self) -> Seq<u8> {
        self.bytes@
    }
}

/// The result of a key agreement: the 32 bytes that key the session's cipher.
pub struct SharedSecret {
    bytes: [u8; 32],
}

impl View for SharedSecret {
    type V = Seq<u8>;

    /// The 32 bytes of the shared secret.
    closed spec fn view(&self) -> Seq<u8> {
        self.bytes@
    }
}

impl PublicKey {
    /// The public key that 32 received bytes stand for.
    pub fn from_bytes(bytes: [u8; 32]) -> (key: PublicKey)
        ensures
            key@ == bytes@,
    {
        PublicKey { bytes }
    }

    /// The bytes to send to the peer.
    pub fn to_bytes(&self) -> (bytes: [u8; 32])
        ensures
            bytes@ == self@,
    {
        self.bytes
    }
}

impl SharedSecret {
    /// The bytes of the shared secret.
    pub fn to_bytes(&self) -> (bytes: [u8; 32])
        ensures
            bytes@ == self@,
    {
        self.bytes
    }
}

impl EphemeralSecret {
    /// The public key that belongs to this secret.
    pub fn public_key(&self) -> (public: PublicKey)
        ensures
            public@ == x25519_public(self@),
    {
        PublicKey { bytes: derive_public(&self.bytes) }
    }

    /// The secret shared with the holder of `their_public`.
    pub fn diffie_hellman(self, their_public: &PublicKey) -> (shared: SharedSecret)
        ensures
            shared@ == x25519_shared(self@, their_public@),
    {
        SharedSecret { bytes: derive_shared(&self.bytes, &their_public.bytes) }
    }
}

/// A fresh key pair for one handshake: a secret drawn from the operating
/// system's generator, and the public key that belongs to it.
pub fn generate_keypair() -> (pair: (EphemeralSecret, PublicKey))
    ensures
        pair.1@ == x25519_public(pair.0@),
{
    let secret = EphemeralSecret { bytes: random_secret() };
    let public = secret.public_key();
    (secret, public)
}

/// Where a key exchange stands.
pub enum HandshakeState {
    /// Nothing was done yet.
    Idle,
    /// Our public key is being written to the peer.
    SendingKey(EphemeralSecret),
    /// Our key is written; the peer's 32 bytes are being read.
    AwaitingPeerKey(EphemeralSecret),
    /// The shared secret was handed out.
    Established,
    /// The exchange was given up.
    Failed,
}

/// What the transport reports back to a key exchange.
#[derive(Clone, Copy, Debug, PartialEq, Eq)]
pub enum HandshakeEvent {
    /// The connection is ready for the exchange.
    Start,
    /// The bytes handed out for sending were written in full.
    KeySent,
    /// Exactly 32 bytes were read from the peer.
    PeerKey([u8; 32]),
    /// A write or a read failed.
    TransportFailed,
}

/// What the transport is to do next for a key exchange.
pub enum HandshakeAction {
    /// Write these 32 bytes to the peer.
    SendKey([u8; 32]),
    /// Read exactly 32 bytes from the peer.
    ReadPeerKey,
    /// The exchange is complete: key the session's cipher with this secret.
    Established(SharedSecret),
    /// The exchange failed: no session is created.
    Abort,
}

/// Whether `next` and `action` are what a key exchange in `state` answers to
/// `event`: write our public key, then read the peer's, then derive the
/// shared secret from our secret and the peer's key; any failure of the
/// transport, and any event out of turn, ends the exchange.
pub open spec fn handshake_step(
    state: HandshakeState,
    event: HandshakeEvent,
    next: HandshakeState,
    action: HandshakeAction,
) -> bool {
    match (state, event) {
        (HandshakeState::Idle, HandshakeEvent::Start) => {
            &&& next matches HandshakeState::SendingKey(secret)
            &&& action matches HandshakeAction::SendKey(public)
            &&& public@ == x25519_public(secret@)
        },
        (HandshakeState::SendingKey(secret), HandshakeEvent::KeySent) => {
            &&& next matches HandshakeState::AwaitingPeerKey(kept)
            &&& kept@ == secret@
            &&& action is ReadPeerKey
        },
        (HandshakeState::AwaitingPeerKey(secret), HandshakeEvent::PeerKey(theirs)) => {
            &&& next is Established
            &&& action matches HandshakeAction::Established(shared)
            &&& shared@ == x25519_shared(secret@, theirs@)
        },
        _ => next is Failed && action is Abort,
    }
}

/// One step of the key exchange: takes what the transport reported and says
/// what it is to do next.
pub fn perform_handshake(state: HandshakeState, event: HandshakeEvent) -> (step: (
    HandshakeState,
    HandshakeAction,
))
    ensures
        handshake_step(state, event, step.0, step.1),
{
    match (state, event) {
        (HandshakeState::Idle, HandshakeEvent::Start) => {
            let (secret, public) = generate_keypair();
            (HandshakeState::SendingKey(secret), HandshakeAction::SendKey(public.to_bytes()))
        },
        (HandshakeState::SendingKey(secret), HandshakeEvent::KeySent) => {
            (HandshakeState::AwaitingPeerKey(secret), HandshakeAction::ReadPeerKey)
        },
        (HandshakeState::AwaitingPeerKey(secret), HandshakeEvent::PeerKey(theirs)) => {
            let shared = secret.diffie_hellman(&PublicKey::from_bytes(theirs));
            (HandshakeState::Established, HandshakeAction::Established(shared))
        },
        _ => (HandshakeState::Failed, HandshakeAction::Abort),
    }
}

} // verus!
