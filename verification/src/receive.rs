//! Polling the channel for one frame without stalling the caller: peek the
//! header, read it, read the body in blocking mode, restore the socket's
//! mode, and only then open the frame.

use crate::channel::{open_frame, opened_body, ProtocolFault, ReceiveOutcome, Received};
use crate::cipher::sealed;
use crate::frame::{decode_length, announced_length, HEADER_LEN, NONCE_LEN};
use vstd::prelude::*;
use vstd::utf8::encode_utf8;

verus! {

/// How a read or a peek failed.
#[derive(Clone, Copy, Debug, PartialEq, Eq, Structural)]
pub enum IoFailure {
    /// Nothing is there yet, and the socket does not wait.
    WouldBlock,
    /// The stream ended before the bytes asked for had come.
    EndOfStream,
    /// Any other failure.
    Other,
}

/// What reading the body of a frame gave.
#[derive(Debug, PartialEq, Eq)]
pub enum BodyResult {
    /// All the bytes that the header announced.
    Read(Vec<u8>),
    /// The stream ended in the middle of the body.
    Ended,
    /// The read failed otherwise, or the mode could not be switched.
    Failed,
}

/// Where a poll of the channel stands.
#[derive(Debug, PartialEq, Eq)]
pub enum ReceiveState {
    /// Between two polls. The socket is in non-blocking mode.
    Idle,
    /// Four bytes are being peeked at, without consuming them.
    Peeking,
    /// A whole header is waiting and is being read.
    ReadingHeader,
    /// The header announced `length` bytes; the socket is being switched to
    /// blocking mode.
    EnteringBlocking { length: u32 },
    /// The `length` bytes of the body are being read, in blocking mode.
    ReadingBody { length: u32 },
    /// The body was read, or could not be; the socket is being switched back
    /// to non-blocking mode.
    Restoring { result: BodyResult },
}

/// What the transport reports back to a poll.
#[derive(Debug, PartialEq, Eq)]
pub enum ReceiveEvent {
    /// The session loop polls the channel.
    Poll,
    /// The peek found this many bytes waiting, at most four. None means that
    /// the stream has ended.
    Peeked(usize),
    /// The peek failed.
    PeekFailed(IoFailure),
    /// The four bytes of the header were read.
    Header([u8; 4]),
    /// The header could not be read.
    HeaderFailed(IoFailure),
    /// The socket's mode was switched as asked.
    ModeSet,
    /// The socket's mode could not be switched.
    ModeFailed,
    /// The bytes of the body were read.
    Body(Vec<u8>),
    /// The body could not be read in full.
    BodyFailed(IoFailure),
}

/// What the transport is to do next for a poll.
#[derive(Debug, PartialEq, Eq)]
pub enum ReceiveAction {
    /// Peek at four bytes without consuming them.
    PeekHeader,
    /// Read exactly four bytes.
    ReadHeader,
    /// Switch the socket to blocking mode.
    EnterBlocking,
    /// Read exactly this many bytes.
    ReadBody(u32),
    /// Switch the socket back to non-blocking mode.
    RestoreNonBlocking,
    /// The poll is over: hand this to the session loop.
    Deliver(ReceiveOutcome),
}

impl ReceiveState {
    /// Whether the socket may be in blocking mode in this state.
    pub open spec fn may_block(self) -> bool {
        self is EnteringBlocking || self is ReadingBody || self is Restoring
    }
}

/// The poll ends and hands `outcome` to the session loop.
pub open spec fn delivers(next: ReceiveState, action: ReceiveAction, outcome: Received) -> bool {
    &&& next is Idle
    &&& action matches ReceiveAction::Deliver(given)
    &&& given@ == outcome
}

/// The body cannot be had: the socket's mode is restored before anything is
/// reported.
pub open spec fn gives_up(next: ReceiveState, action: ReceiveAction, result: BodyResult) -> bool {
    next == (ReceiveState::Restoring { result }) && action is RestoreNonBlocking
}

/// What a failure means where no body is being read: nothing there yet is no
/// error, the end of the stream is the peer's disconnect, anything else is a
/// fault of the transport.
pub open spec fn failure_outcome(failure: IoFailure) -> Received {
    match failure {
        IoFailure::WouldBlock => Received::WouldBlock,
        IoFailure::EndOfStream => Received::Disconnected,
        IoFailure::Other => Received::ProtocolError(ProtocolFault::Transport),
    }
}

/// What is reported once the socket's mode is restored.
pub open spec fn body_outcome(key: Seq<u8>, result: BodyResult) -> Received {
    match result {
        BodyResult::Read(body) => opened_body(key, body@),
        BodyResult::Ended => Received::Disconnected,
        BodyResult::Failed => Received::ProtocolError(ProtocolFault::Transport),
    }
}

/// Whether `next` and `action` are what a poll in `state` answers to `event`
/// under the session key `key`.
///
/// A poll peeks at four bytes. No byte and the stream's end is a disconnect;
/// one to three bytes mean that the header is still arriving. A whole header
/// is read and must announce at least a nonce. The body is read in blocking
/// mode, and whatever comes of it, the socket is switched back before
/// anything is reported: the opened frame, a disconnect where the stream
/// ended in the body, a fault otherwise.
pub open spec fn receive_step(
    key: Seq<u8>,
    state: ReceiveState,
    event: ReceiveEvent,
    next: ReceiveState,
    action: ReceiveAction,
) -> bool {
    match (state, event) {
        (ReceiveState::Idle, ReceiveEvent::Poll) => next is Peeking && action is PeekHeader,
        (ReceiveState::Peeking, ReceiveEvent::Peeked(waiting)) => if waiting >= HEADER_LEN {
            next is ReadingHeader && action is ReadHeader
        } else if waiting == 0 {
            delivers(next, action, Received::Disconnected)
        } else {
            delivers(next, action, Received::WouldBlock)
        },
        (ReceiveState::Peeking, ReceiveEvent::PeekFailed(failure)) => delivers(
            next,
            action,
            failure_outcome(failure),
        ),
        (ReceiveState::ReadingHeader, ReceiveEvent::Header(header)) => match announced_length(
            header@,
        ) {
            Ok(length) => next == (ReceiveState::EnteringBlocking { length })
                && action is EnterBlocking,
            Err(_) => delivers(next, action, Received::ProtocolError(ProtocolFault::ShortFrame)),
        },
        (ReceiveState::ReadingHeader, ReceiveEvent::HeaderFailed(failure)) => delivers(
            next,
            action,
            failure_outcome(failure),
        ),
        (ReceiveState::EnteringBlocking { length }, ReceiveEvent::ModeSet) => next == (
        ReceiveState::ReadingBody { length }) && action == ReceiveAction::ReadBody(length),
        (ReceiveState::EnteringBlocking { .. }, _) => gives_up(next, action, BodyResult::Failed),
        (ReceiveState::ReadingBody { length }, ReceiveEvent::Body(body)) => if body@.len()
            == length {
            gives_up(next, action, BodyResult::Read(body))
        } else {
            gives_up(next, action, BodyResult::Failed)
        },
        (
            ReceiveState::ReadingBody { .. },
            ReceiveEvent::BodyFailed(IoFailure::EndOfStream),
        ) => gives_up(next, action, BodyResult::Ended),
        (ReceiveState::ReadingBody { .. }, _) => gives_up(next, action, BodyResult::Failed),
        (ReceiveState::Restoring { result }, ReceiveEvent::ModeSet) => delivers(
            next,
            action,
            body_outcome(key, result),
        ),
        _ => delivers(next, action, Received::ProtocolError(ProtocolFault::Transport)),
    }
}

fn deliver_failure(failure: IoFailure) -> (step: (ReceiveState, ReceiveAction))
    ensures
        delivers(step.0, step.1, failure_outcome(failure)),
{
    let outcome = match failure {
        IoFailure::WouldBlock => ReceiveOutcome::WouldBlock,
        IoFailure::EndOfStream => ReceiveOutcome::Disconnected,
        IoFailure::Other => ReceiveOutcome::ProtocolError(ProtocolFault::Transport),
    };
    (ReceiveState::Idle, ReceiveAction::Deliver(outcome))
}

fn deliver_fault(fault: ProtocolFault) -> (step: (ReceiveState, ReceiveAction))
    ensures
        delivers(step.0, step.1, Received::ProtocolError(fault)),
{
    (ReceiveState::Idle, ReceiveAction::Deliver(ReceiveOutcome::ProtocolError(fault)))
}

/// One step of a poll of the channel: takes what the transport reported and
/// says what it is to do next, or what the poll delivers.
///
/// The body that `seal_frame` made for a text under the same key is delivered
/// as that text.
pub fn receive_and_decrypt(key: &[u8; 32], state: ReceiveState, event: ReceiveEvent) -> (step: (
    ReceiveState,
    ReceiveAction,
))
    ensures
        receive_step(key@, state, event, step.0, step.1),
        forall|text: Seq<char>|
            (state matches ReceiveState::Restoring { result: BodyResult::Read(body) } && event
                is ModeSet && body@.len() >= NONCE_LEN && sealed(
                key@,
                body@.subrange(0, NONCE_LEN as int),
                #[trigger] encode_utf8(text),
            ) == Some(body@.subrange(NONCE_LEN as int, body@.len() as int))) ==> delivers(
                step.0,
                step.1,
                Received::Message(text),
            ),
{
    match (state, event) {
        (ReceiveState::Idle, ReceiveEvent::Poll) => (
            ReceiveState::Peeking,
            ReceiveAction::PeekHeader,
        ),
        (ReceiveState::Peeking, ReceiveEvent::Peeked(waiting)) => {
            if waiting >= HEADER_LEN {
                (ReceiveState::ReadingHeader, ReceiveAction::ReadHeader)
            } else if waiting == 0 {
                (ReceiveState::Idle, ReceiveAction::Deliver(ReceiveOutcome::Disconnected))
            } else {
                (ReceiveState::Idle, ReceiveAction::Deliver(ReceiveOutcome::WouldBlock))
            }
        },
        (ReceiveState::Peeking, ReceiveEvent::PeekFailed(failure)) => deliver_failure(failure),
        (ReceiveState::ReadingHeader, ReceiveEvent::Header(header)) => {
            match decode_length(&header) {
                Ok(length) => (
                    ReceiveState::EnteringBlocking { length },
                    ReceiveAction::EnterBlocking,
                ),
                Err(_) => deliver_fault(ProtocolFault::ShortFrame),
            }
        },
        (ReceiveState::ReadingHeader, ReceiveEvent::HeaderFailed(failure)) => deliver_failure(
            failure,
        ),
        (ReceiveState::EnteringBlocking { length }, ReceiveEvent::ModeSet) => (
            ReceiveState::ReadingBody { length },
            ReceiveAction::ReadBody(length),
        ),
        (ReceiveState::EnteringBlocking { .. }, _) => (
            ReceiveState::Restoring { result: BodyResult::Failed },
            ReceiveAction::RestoreNonBlocking,
        ),
        (ReceiveState::ReadingBody { length }, ReceiveEvent::Body(body)) => {
            if body.len() as u64 == length as u64 {
                (
                    ReceiveState::Restoring { result: BodyResult::Read(body) },
                    ReceiveAction::RestoreNonBlocking,
                )
            } else {
                (
                    ReceiveState::Restoring { result: BodyResult::Failed },
                    ReceiveAction::RestoreNonBlocking,
                )
            }
        },
        (ReceiveState::ReadingBody { .. }, ReceiveEvent::BodyFailed(IoFailure::EndOfStream)) => (
            ReceiveState::Restoring { result: BodyResult::Ended },
            ReceiveAction::RestoreNonBlocking,
        ),
        (ReceiveState::ReadingBody { .. }, _) => (
            ReceiveState::Restoring { result: BodyResult::Failed },
            ReceiveAction::RestoreNonBlocking,
        ),
        (ReceiveState::Restoring { result }, ReceiveEvent::ModeSet) => {
            match result {
                BodyResult::Read(body) => {
                    let outcome = open_frame(key, body.as_slice());
                    (ReceiveState::Idle, ReceiveAction::Deliver(outcome))
                },
                BodyResult::Ended => (
                    ReceiveState::Idle,
                    ReceiveAction::Deliver(ReceiveOutcome::Disconnected),
                ),
                BodyResult::Failed => deliver_fault(ProtocolFault::Transport),
            }
        },
        _ => deliver_fault(ProtocolFault::Transport),
    }
}

/// The socket's mode is restored before a poll reports anything: while the
/// socket may block no step delivers, every step from there asks for the body
/// or for the mode's restoration, and a poll is over exactly when it
/// delivers.
pub proof fn lemma_mode_restored_before_delivery(
    key: Seq<u8>,
    state: ReceiveState,
    event: ReceiveEvent,
    next: ReceiveState,
    action: ReceiveAction,
)
    requires
        receive_step(key, state, event, next, action),
    ensures
        action is Deliver <==> next is Idle,
        action is Deliver && state.may_block() ==> state is Restoring,
        action is RestoreNonBlocking <==> next is Restoring,
        next.may_block() && !state.may_block() ==> action is EnterBlocking,
{
}

/// A frame cut short: where the stream ends in the middle of the body, the
/// poll restores the socket's mode and then reports a disconnect.
pub proof fn lemma_truncated_body_disconnects(
    key: Seq<u8>,
    length: u32,
    restoring: ReceiveState,
    first: ReceiveAction,
    idle: ReceiveState,
    second: ReceiveAction,
)
    requires
        receive_step(
            key,
            ReceiveState::ReadingBody { length },
            ReceiveEvent::BodyFailed(IoFailure::EndOfStream),
            restoring,
            first,
        ),
        receive_step(key, restoring, ReceiveEvent::ModeSet, idle, second),
    ensures
        first is RestoreNonBlocking,
        delivers(idle, second, Received::Disconnected),
{
}

} // verus!
