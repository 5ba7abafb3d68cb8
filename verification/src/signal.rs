//! Consent signalling: the one byte by which the receiver of a connection
//! accepts or rejects it, and the two roles' state machines around it.

use crate::registry::PeerAddr;
use crate::text::{chars_of, trim, trimmed};
use vstd::prelude::*;

verus! {

/// The byte that accepts a connection: ASCII `Y`.
pub const SIGNAL_ACCEPT: u8 = 0x59;

/// The byte that rejects a connection: ASCII `N`.
pub const SIGNAL_REJECT: u8 = 0x4E;

/// How long the initiator waits for the signal byte, in milliseconds.
pub const SIGNAL_TIMEOUT_MS: u64 = 10000;

/// Whether an answer to the consent prompt accepts: without the white space
/// at its ends it is the letter `y`, in either case.
pub open spec fn consents(answer: Seq<char>) -> bool {
    trimmed(answer) == seq!['y'] || trimmed(answer) == seq!['Y']
}

/// Reads the local user's answer to the consent prompt. Anything but a lone
/// `y` or `Y` between white space, the empty answer too, is a refusal.
pub fn is_consent(answer: &str) -> (accepted: bool)
    ensures
        accepted == consents(answer@),
{
    let word = trim(answer);
    let letters = chars_of(word.as_str());
    let accepted = letters.len() == 1 && (letters[0] == 'y' || letters[0] == 'Y');
    proof {
        if accepted {
            assert(letters@ =~= seq![letters@[0]]);
        } else if letters@.len() == 1 {
            assert(seq!['y'][0] == 'y' && seq!['Y'][0] == 'Y');
        }
    }
    accepted
}

/// Where the receiver of a connection stands.
#[derive(Clone, Copy, Debug, PartialEq, Eq, Structural)]
pub enum ReceiverState {
    /// No connection was delivered yet.
    Idle,
    /// The local user was asked and has not answered.
    AwaitingConsent,
    /// The user consented; the accept byte is being written.
    SendingAccept,
    /// The user refused; the reject byte is being written.
    SendingReject,
    /// The peer was told that it is accepted: the key exchange follows.
    Accepted,
    /// The connection was refused: no session is created.
    Rejected,
    /// The local input or the transport failed: no session is created.
    Failed,
}

/// What happens to the receiver of a connection.
#[derive(Debug, PartialEq, Eq)]
pub enum ReceiverEvent {
    /// A connection from this address was delivered.
    Incoming(PeerAddr),
    /// The local user answered the prompt with this line.
    Answer(String),
    /// The local user's answer could not be read.
    InputFailed,
    /// The signal byte was written.
    SignalSent,
    /// The signal byte could not be written.
    SendFailed,
}

/// What the receiver's surroundings are to do next.
#[derive(Clone, Copy, Debug, PartialEq, Eq, Structural)]
pub enum ReceiverAction {
    /// Ask the local user whether to accept a connection from this address.
    Prompt(PeerAddr),
    /// Write this one byte to the peer.
    SendSignal(u8),
    /// Go on to the key exchange on this connection.
    StartKeyExchange,
    /// Tell the local user that the connection was rejected, and drop it.
    ReportRejected,
    /// Give the connection up with the error at hand.
    Abort,
    /// Nothing: the request was settled before.
    Nothing,
}

/// The receiver's rule. A delivered connection is put to the local user; a
/// consenting answer sends the accept byte and, once that is written, leads
/// to the key exchange; any other answer sends the reject byte, and whether
/// or not that can be written the connection is rejected. A settled request
/// stays as it is; a failure, or an event out of turn, gives the request up.
pub open spec fn receiver_step(state: ReceiverState, event: ReceiverEvent) -> (
    ReceiverState,
    ReceiverAction,
) {
    match (state, event) {
        (ReceiverState::Idle, ReceiverEvent::Incoming(peer)) => (
            ReceiverState::AwaitingConsent,
            ReceiverAction::Prompt(peer),
        ),
        (ReceiverState::AwaitingConsent, ReceiverEvent::Answer(line)) => if consents(line@) {
            (ReceiverState::SendingAccept, ReceiverAction::SendSignal(SIGNAL_ACCEPT))
        } else {
            (ReceiverState::SendingReject, ReceiverAction::SendSignal(SIGNAL_REJECT))
        },
        (ReceiverState::SendingAccept, ReceiverEvent::SignalSent) => (
            ReceiverState::Accepted,
            ReceiverAction::StartKeyExchange,
        ),
        (ReceiverState::SendingReject, ReceiverEvent::SignalSent) => (
            ReceiverState::Rejected,
            ReceiverAction::ReportRejected,
        ),
        (ReceiverState::SendingReject, ReceiverEvent::SendFailed) => (
            ReceiverState::Rejected,
            ReceiverAction::ReportRejected,
        ),
        (ReceiverState::Accepted, _) => (ReceiverState::Accepted, ReceiverAction::Nothing),
        (ReceiverState::Rejected, _) => (ReceiverState::Rejected, ReceiverAction::Nothing),
        (ReceiverState::Failed, _) => (ReceiverState::Failed, ReceiverAction::Nothing),
        _ => (ReceiverState::Failed, ReceiverAction::Abort),
    }
}

/// One step of the receiver's side of the consent handshake.
pub fn handle_incoming_request(state: ReceiverState, event: &ReceiverEvent) -> (step: (
    ReceiverState,
    ReceiverAction,
))
    ensures
        step == receiver_step(state, *event),
{
    match (state, event) {
        (ReceiverState::Idle, ReceiverEvent::Incoming(peer)) => (
            ReceiverState::AwaitingConsent,
            ReceiverAction::Prompt(*peer),
        ),
        (ReceiverState::AwaitingConsent, ReceiverEvent::Answer(line)) => {
            if is_consent(line.as_str()) {
                (ReceiverState::SendingAccept, ReceiverAction::SendSignal(SIGNAL_ACCEPT))
            } else {
                (ReceiverState::SendingReject, ReceiverAction::SendSignal(SIGNAL_REJECT))
            }
        },
        (ReceiverState::SendingAccept, ReceiverEvent::SignalSent) => (
            ReceiverState::Accepted,
            ReceiverAction::StartKeyExchange,
        ),
        (ReceiverState::SendingReject, ReceiverEvent::SignalSent) => (
            ReceiverState::Rejected,
            ReceiverAction::ReportRejected,
        ),
        (ReceiverState::SendingReject, ReceiverEvent::SendFailed) => (
            ReceiverState::Rejected,
            ReceiverAction::ReportRejected,
        ),
        (ReceiverState::Accepted, _) => (ReceiverState::Accepted, ReceiverAction::Nothing),
        (ReceiverState::Rejected, _) => (ReceiverState::Rejected, ReceiverAction::Nothing),
        (ReceiverState::Failed, _) => (ReceiverState::Failed, ReceiverAction::Nothing),
        _ => (ReceiverState::Failed, ReceiverAction::Abort),
    }
}

/// Where the initiator of a connection stands.
#[derive(Clone, Copy, Debug, PartialEq, Eq, Structural)]
pub enum InitiatorState {
    /// Nothing was done yet.
    Idle,
    /// The connection to the target is being opened.
    Connecting,
    /// Connected; the read deadline for the signal is being set.
    ArmingTimeout,
    /// The one signal byte is being read, under the deadline.
    AwaitingSignal,
    /// The accept byte came; the read deadline is being lifted.
    ClearingTimeout,
    /// The peer accepted: the key exchange follows.
    Accepted,
    /// The peer answered with anything but the accept byte.
    Rejected,
    /// No signal byte came before the deadline or the end of the stream.
    TimedOut,
    /// The target could not be reached.
    ConnectFailed,
    /// Setting or lifting the deadline failed.
    Failed,
}

/// What the transport reports back to the initiator.
#[derive(Clone, Copy, Debug, PartialEq, Eq, Structural)]
pub enum InitiatorEvent {
    /// The local user asked for a connection.
    Start,
    /// What was asked for last was done.
    Done,
    /// What was asked for last could not be done.
    Failed,
    /// This byte was read from the peer.
    Signal(u8),
}

/// What the initiator's surroundings are to do next.
#[derive(Clone, Copy, Debug, PartialEq, Eq, Structural)]
pub enum InitiatorAction {
    /// Open the connection to the target.
    Connect,
    /// Set the read deadline to so many milliseconds, or lift it.
    SetReadTimeout(Option<u64>),
    /// Read exactly one byte from the peer.
    ReadSignal,
    /// Go on to the key exchange on this connection.
    StartKeyExchange,
    /// Tell the local user that the target could not be reached.
    ReportConnectFailed,
    /// Tell the local user that the peer rejected the connection.
    ReportRejected,
    /// Tell the local user that the peer did not answer in time.
    ReportTimedOut,
    /// Give the connection up with the error at hand.
    Abort,
    /// Nothing: the attempt was settled before.
    Nothing,
}

impl InitiatorState {
    /// Whether the attempt is over, one way or the other.
    pub open spec fn settled(self) -> bool {
        self is Accepted || self is Rejected || self is TimedOut || self is ConnectFailed
            || self is Failed
    }
}

/// The initiator's rule: connect; wait at most `SIGNAL_TIMEOUT_MS` for one
/// byte; on the accept byte lift the deadline and go on to the key exchange,
/// on any other byte report the rejection. A failed connect, and a read that
/// fails before the byte came, each end the attempt with their own report.
/// There is one attempt and no retry.
pub open spec fn initiator_step(state: InitiatorState, event: InitiatorEvent) -> (
    InitiatorState,
    InitiatorAction,
) {
    match (state, event) {
        (InitiatorState::Idle, InitiatorEvent::Start) => (
            InitiatorState::Connecting,
            InitiatorAction::Connect,
        ),
        (InitiatorState::Connecting, InitiatorEvent::Done) => (
            InitiatorState::ArmingTimeout,
            InitiatorAction::SetReadTimeout(Some(SIGNAL_TIMEOUT_MS)),
        ),
        (InitiatorState::Connecting, InitiatorEvent::Failed) => (
            InitiatorState::ConnectFailed,
            InitiatorAction::ReportConnectFailed,
        ),
        (InitiatorState::ArmingTimeout, InitiatorEvent::Done) => (
            InitiatorState::AwaitingSignal,
            InitiatorAction::ReadSignal,
        ),
        (InitiatorState::AwaitingSignal, InitiatorEvent::Signal(byte)) => if byte
            == SIGNAL_ACCEPT {
            (InitiatorState::ClearingTimeout, InitiatorAction::SetReadTimeout(None))
        } else {
            (InitiatorState::Rejected, InitiatorAction::ReportRejected)
        },
        (InitiatorState::AwaitingSignal, InitiatorEvent::Failed) => (
            InitiatorState::TimedOut,
            InitiatorAction::ReportTimedOut,
        ),
        (InitiatorState::ClearingTimeout, InitiatorEvent::Done) => (
            InitiatorState::Accepted,
            InitiatorAction::StartKeyExchange,
        ),
        _ => if state.settled() {
            (state, InitiatorAction::Nothing)
        } else {
            (InitiatorState::Failed, InitiatorAction::Abort)
        },
    }
}

/// One step of the initiator's side of the consent handshake.
pub fn initiate_connection(state: InitiatorState, event: InitiatorEvent) -> (step: (
    InitiatorState,
    InitiatorAction,
))
    ensures
        step == initiator_step(state, event),
{
    match (state, event) {
        (InitiatorState::Idle, InitiatorEvent::Start) => (
            InitiatorState::Connecting,
            InitiatorAction::Connect,
        ),
        (InitiatorState::Connecting, InitiatorEvent::Done) => (
            InitiatorState::ArmingTimeout,
            InitiatorAction::SetReadTimeout(Some(SIGNAL_TIMEOUT_MS)),
        ),
        (InitiatorState::Connecting, InitiatorEvent::Failed) => (
            InitiatorState::ConnectFailed,
            InitiatorAction::ReportConnectFailed,
        ),
        (InitiatorState::ArmingTimeout, InitiatorEvent::Done) => (
            InitiatorState::AwaitingSignal,
            InitiatorAction::ReadSignal,
        ),
        (InitiatorState::AwaitingSignal, InitiatorEvent::Signal(byte)) => {
            if byte == SIGNAL_ACCEPT {
                (InitiatorState::ClearingTimeout, InitiatorAction::SetReadTimeout(None))
            } else {
                (InitiatorState::Rejected, InitiatorAction::ReportRejected)
            }
        },
        (InitiatorState::AwaitingSignal, InitiatorEvent::Failed) => (
            InitiatorState::TimedOut,
            InitiatorAction::ReportTimedOut,
        ),
        (InitiatorState::ClearingTimeout, InitiatorEvent::Done) => (
            InitiatorState::Accepted,
            InitiatorAction::StartKeyExchange,
        ),
        (InitiatorState::Accepted, _) => (state, InitiatorAction::Nothing),
        (InitiatorState::Rejected, _) => (state, InitiatorAction::Nothing),
        (InitiatorState::TimedOut, _) => (state, InitiatorAction::Nothing),
        (InitiatorState::ConnectFailed, _) => (state, InitiatorAction::Nothing),
        (InitiatorState::Failed, _) => (state, InitiatorAction::Nothing),
        _ => (InitiatorState::Failed, InitiatorAction::Abort),
    }
}

/// The two roles agree: the byte that the receiver sends for an answer makes
/// the waiting initiator go on exactly if the answer consents, and report a
/// rejection otherwise.
pub proof fn lemma_roles_agree(answer: String)
    ensures
        receiver_step(ReceiverState::AwaitingConsent, ReceiverEvent::Answer(answer)).1
            matches ReceiverAction::SendSignal(byte) && initiator_step(
            InitiatorState::AwaitingSignal,
            InitiatorEvent::Signal(byte),
        ) == (if consents(answer@) {
            (InitiatorState::ClearingTimeout, InitiatorAction::SetReadTimeout(None))
        } else {
            (InitiatorState::Rejected, InitiatorAction::ReportRejected)
        }),
{
}

/// A byte other than the accept byte is a rejection, whatever it is.
pub proof fn lemma_other_bytes_reject(byte: u8)
    requires
        byte != SIGNAL_ACCEPT,
    ensures
        initiator_step(InitiatorState::AwaitingSignal, InitiatorEvent::Signal(byte)) == (
            InitiatorState::Rejected,
            InitiatorAction::ReportRejected,
        ),
{
}

} // verus!
