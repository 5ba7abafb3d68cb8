//! One chat session: its key, and the state that the session loop keeps
//! between a key press and a poll of the channel.

use crate::channel::{encrypt_and_send, frame_view, sealed_frame, ReceiveOutcome, SendError};
use crate::cipher::TAG_LEN;
use crate::frame::{fits_frame, NONCE_LEN};
use crate::keys::SharedSecret;
use crate::receive::{receive_and_decrypt, receive_step, ReceiveAction, ReceiveEvent, ReceiveState};
use crate::registry::PeerAddr;
use vstd::prelude::*;
use vstd::utf8::encode_utf8;

verus! {

/// How long the session loop waits for a key press before it polls the
/// channel, in milliseconds.
pub const POLL_INTERVAL_MS: u64 = 10;

/// How long the notice of the peer's disconnect stays on screen before the
/// session loop ends, in milliseconds.
pub const DISCONNECT_GRACE_MS: u64 = 2000;

/// The rows of the screen that hold no message: the separator and the input
/// line.
pub const RESERVED_ROWS: usize = 2;

/// The state of one encrypted chat: the peer, the key agreed with it, and
/// where the poll of the channel stands. The key is set once and never
/// changes.
pub struct Session {
    peer: PeerAddr,
    key: [u8; 32],
    receiving: ReceiveState,
}

impl Session {
    /// The session with `peer` under the secret shared with it, between two
    /// polls of the channel.
    pub fn new(peer: PeerAddr, shared: SharedSecret) -> (session: Session)
        ensures
            session.peer() == peer,
            session.key() == shared@,
            session.receiving() is Idle,
    {
        Session { peer, key: shared.to_bytes(), receiving: ReceiveState::Idle }
    }

    /// The 32 bytes of the session key.
    pub closed spec fn key(&self) -> Seq<u8> {
        self.key@
    }

    /// The peer of the session.
    pub closed spec fn peer(&self) -> PeerAddr {
        self.peer
    }

    /// Where the poll of the channel stands.
    pub closed spec fn receiving(&self) -> ReceiveState {
        self.receiving
    }

    /// The address of the peer.
    pub fn peer_addr(&self) -> (peer: PeerAddr)
        ensures
            peer == self.peer(),
    {
        self.peer
    }

    /// Whether the session is between two polls of the channel.
    pub fn is_idle(&self) -> (idle: bool)
        ensures
            idle == self.receiving() is Idle,
    {
        match &self.receiving {
            ReceiveState::Idle => true,
            _ => false,
        }
    }

    /// Seals `message` under the session key and a fresh nonce and returns
    /// the frame to write to the peer. A message whose UTF-8 bytes, with
    /// nonce and tag, fit the length prefix is always framed.
    pub fn send(&self, message: &str) -> (frame: Result<Vec<u8>, SendError>)
        ensures
            exists|nonce: Seq<u8>|
                nonce.len() == NONCE_LEN && frame_view(frame) == #[trigger] sealed_frame(
                    self.key(),
                    nonce,
                    message@,
                ),
            frame is Ok <==> fits_frame(encode_utf8(message@).len() + TAG_LEN as nat),
    {
        let frame = encrypt_and_send(&self.key, message);
        proof {
            let nonce = choose|nonce: Seq<u8>|
                nonce.len() == NONCE_LEN && frame_view(frame) == #[trigger] sealed_frame(
                    self.key@,
                    nonce,
                    message@,
                );
            assert(frame_view(frame) == sealed_frame(self.key(), nonce, message@));
        }
        frame
    }

    /// One step of a poll of the channel under the session key: takes what
    /// the transport reported and says what it is to do next, or what the
    /// poll delivers. Peer and key stay as they are.
    pub fn try_receive(&mut self, event: ReceiveEvent) -> (action: ReceiveAction)
        ensures
            receive_step(
                old(self).key(),
                old(self).receiving(),
                event,
                final(self).receiving(),
                action,
            ),
            final(self).key() == old(self).key(),
            final(self).peer() == old(self).peer(),
    {
        let mut state = ReceiveState::Idle;
        core::mem::swap(&mut self.receiving, &mut state);
        let (next, action) = receive_and_decrypt(&self.key, state, event);
        self.receiving = next;
        action
    }
}

/// One line of a session's transcript.
#[derive(Debug, PartialEq, Eq)]
pub enum ChatLine {
    /// The session with this peer was opened.
    Connected(PeerAddr),
    /// The session is encrypted end to end.
    Encrypted,
    /// How to leave the session.
    Hint,
    /// A horizontal rule under the opening lines.
    Rule,
    /// A message that was sent to the peer.
    Sent(String),
    /// A message that came from the peer.
    Received(String),
    /// A message could not be sealed.
    NotSealed(SendError),
    /// A frame could not be written; the text says why.
    NotWritten(String),
    /// The peer is gone, or the channel can no longer be trusted.
    PeerGone,
}

/// A key press, as far as the session loop tells keys apart.
#[derive(Clone, Copy, Debug, PartialEq, Eq, Structural)]
pub enum KeyInput {
    /// Leave the session.
    Esc,
    /// Send the input line.
    Enter,
    /// A character for the input line.
    Char(char),
    /// Remove the last character of the input line.
    Backspace,
    /// Scroll towards older messages.
    Up,
    /// Scroll towards newer messages.
    Down,
    /// Any other key.
    Other,
}

/// What the session loop is to do after a step.
#[derive(Debug, PartialEq, Eq)]
pub enum LoopAction {
    /// Nothing changed.
    Nothing,
    /// Draw the screen anew.
    Redraw,
    /// Write this frame to the peer and report how that went.
    WriteFrame(Vec<u8>),
    /// End the session at once.
    Leave,
    /// Draw the screen anew, wait so many milliseconds, then end the
    /// session.
    LeaveAfter(u64),
}

/// What the session loop keeps between its steps: the line being typed, the
/// transcript, and how far the view is scrolled back from the newest line.
pub struct ChatWindow {
    pub input: String,
    pub lines: Vec<ChatLine>,
    pub scroll_offset: usize,
}

/// The number of message rows on a screen of `rows` rows.
pub open spec fn message_rows(rows: u16) -> int {
    if rows >= RESERVED_ROWS {
        rows - RESERVED_ROWS
    } else {
        0
    }
}

/// How far a transcript of `total` lines can be scrolled back on a screen of
/// `rows` rows: by the lines that do not fit.
pub open spec fn max_scroll(total: nat, rows: u16) -> int {
    if total >= message_rows(rows) {
        total - message_rows(rows)
    } else {
        0
    }
}

/// The first line on screen and the line after the last, for a transcript of
/// `total` lines scrolled back by `scroll_offset`.
pub open spec fn window_of(total: nat, scroll_offset: nat, rows: u16) -> (int, int) {
    let end = if total >= scroll_offset {
        total - scroll_offset
    } else {
        0
    };
    let start = if end >= message_rows(rows) {
        end - message_rows(rows)
    } else {
        0
    };
    (start, end)
}

/// The part of the transcript that is on screen: from the first index up to,
/// not including, the second.
pub fn visible_window(total: usize, scroll_offset: usize, rows: u16) -> (window: (usize, usize))
    ensures
        (window.0 as int, window.1 as int) == window_of(total as nat, scroll_offset as nat, rows),
        window.0 <= window.1 <= total,
        window.1 - window.0 <= message_rows(rows),
{
    let available: usize = if rows as usize >= RESERVED_ROWS {
        rows as usize - RESERVED_ROWS
    } else {
        0
    };
    let end: usize = if total >= scroll_offset {
        total - scroll_offset
    } else {
        0
    };
    let start: usize = if end >= available {
        end - available
    } else {
        0
    };
    (start, end)
}

/// Scrolled back by no more than the lines that do not fit, the screen is as
/// full as the transcript allows, and it ends at the newest line exactly when
/// the view is not scrolled back.
pub proof fn lemma_window_is_full(total: nat, scroll_offset: nat, rows: u16)
    requires
        scroll_offset <= max_scroll(total, rows),
    ensures
        ({
            let (start, end) = window_of(total, scroll_offset, rows);
            &&& end - start == (if total >= message_rows(rows) {
                message_rows(rows)
            } else {
                total as int
            })
            &&& (end == total <==> scroll_offset == 0)
        }),
{
}

impl ChatWindow {
    /// The window of a session that was just opened with `peer`: an empty
    /// input line under the four opening lines, not scrolled.
    pub fn new(peer: PeerAddr) -> (window: ChatWindow)
        ensures
            window.input@ == Seq::<char>::empty(),
            window.lines@ == seq![
                ChatLine::Connected(peer),
                ChatLine::Encrypted,
                ChatLine::Hint,
                ChatLine::Rule,
            ],
            window.scroll_offset == 0,
    {
        let mut lines: Vec<ChatLine> = Vec::new();
        lines.push(ChatLine::Connected(peer));
        lines.push(ChatLine::Encrypted);
        lines.push(ChatLine::Hint);
        lines.push(ChatLine::Rule);
        assert(lines@ =~= seq![
            ChatLine::Connected(peer),
            ChatLine::Encrypted,
            ChatLine::Hint,
            ChatLine::Rule,
        ]);
        ChatWindow { input: String::new(), lines, scroll_offset: 0 }
    }

    /// Whether `after` and `action` are what the window `self` makes of a key
    /// press, on a screen of `rows` rows and under the session key `key`.
    ///
    /// `Esc` leaves. `Enter` on a line that is not empty seals the line: the
    /// frame goes out for writing with the window unchanged, and a line that
    /// cannot be sealed is noted in the transcript. A character is appended,
    /// `Backspace` removes the last one. `Up` scrolls back by one line while
    /// lines are left above, `Down` scrolls forward by one while the view is
    /// scrolled back. Nothing else changes anything.
    pub open spec fn key_step(
        self,
        key: Seq<u8>,
        pressed: KeyInput,
        rows: u16,
        after: ChatWindow,
        action: LoopAction,
    ) -> bool {
        match pressed {
            KeyInput::Esc => after == self && action is Leave,
            KeyInput::Enter => if self.input@.len() == 0 {
                after == self && action is Nothing
            } else {
                exists|nonce: Seq<u8>|
                    nonce.len() == NONCE_LEN && match #[trigger] sealed_frame(
                        key,
                        nonce,
                        self.input@,
                    ) {
                        Ok(frame) => {
                            &&& after == self
                            &&& action matches LoopAction::WriteFrame(bytes)
                            &&& bytes@ == frame
                        },
                        Err(e) => {
                            &&& after.input == self.input
                            &&& after.lines@ == self.lines@.push(ChatLine::NotSealed(e))
                            &&& after.scroll_offset == self.scroll_offset
                            &&& action is Redraw
                        },
                    }
            },
            KeyInput::Char(c) => {
                &&& after.input@ == self.input@.push(c)
                &&& after.lines == self.lines
                &&& after.scroll_offset == self.scroll_offset
                &&& action is Redraw
            },
            KeyInput::Backspace => {
                &&& after.input@ == (if self.input@.len() > 0 {
                    self.input@.drop_last()
                } else {
                    self.input@
                })
                &&& after.lines == self.lines
                &&& after.scroll_offset == self.scroll_offset
                &&& action is Redraw
            },
            KeyInput::Up => if self.scroll_offset < max_scroll(self.lines@.len(), rows) {
                &&& after.input == self.input
                &&& after.lines == self.lines
                &&& after.scroll_offset == self.scroll_offset + 1
                &&& action is Redraw
            } else {
                after == self && action is Nothing
            },
            KeyInput::Down => if self.scroll_offset > 0 {
                &&& after.input == self.input
                &&& after.lines == self.lines
                &&& after.scroll_offset == self.scroll_offset - 1
                &&& action is Redraw
            } else {
                after == self && action is Nothing
            },
            KeyInput::Other => after == self && action is Nothing,
        }
    }

    /// Takes one key press.
    pub fn on_key(&mut self, session: &Session, pressed: KeyInput, rows: u16) -> (action:
        LoopAction)
        ensures
            old(self).key_step(session.key(), pressed, rows, *final(self), action),
    {
        match pressed {
            KeyInput::Esc => LoopAction::Leave,
            KeyInput::Enter => {
                if self.input.as_str().is_empty() {
                    LoopAction::Nothing
                } else {
                    match session.send(self.input.as_str()) {
                        Ok(bytes) => LoopAction::WriteFrame(bytes),
                        Err(e) => {
                            self.lines.push(ChatLine::NotSealed(e));
                            LoopAction::Redraw
                        },
                    }
                }
            },
            KeyInput::Char(c) => {
                self.input.push(c);
                LoopAction::Redraw
            },
            KeyInput::Backspace => {
                self.input.pop();
                LoopAction::Redraw
            },
            KeyInput::Up => {
                let available: usize = if rows as usize >= RESERVED_ROWS {
                    rows as usize - RESERVED_ROWS
                } else {
                    0
                };
                let limit: usize = if self.lines.len() >= available {
                    self.lines.len() - available
                } else {
                    0
                };
                if self.scroll_offset < limit {
                    self.scroll_offset += 1;
                    LoopAction::Redraw
                } else {
                    LoopAction::Nothing
                }
            },
            KeyInput::Down => {
                if self.scroll_offset > 0 {
                    self.scroll_offset -= 1;
                    LoopAction::Redraw
                } else {
                    LoopAction::Nothing
                }
            },
            KeyInput::Other => LoopAction::Nothing,
        }
    }

    /// Takes the report on a frame that went out for writing. With no
    /// failure the input line becomes a sent line of the transcript, the
    /// input is emptied and the view jumps to the newest line. With a
    /// failure its text is noted and the input stays for another try.
    pub fn on_frame_written(&mut self, failure: Option<String>) -> (action: LoopAction)
        ensures
            action is Redraw,
            match failure {
                None => {
                    &&& final(self).lines@ == old(self).lines@.push(
                        ChatLine::Sent(old(self).input),
                    )
                    &&& final(self).input@ == Seq::<char>::empty()
                    &&& final(self).scroll_offset == 0
                },
                Some(why) => {
                    &&& final(self).lines@ == old(self).lines@.push(ChatLine::NotWritten(why))
                    &&& final(self).input == old(self).input
                    &&& final(self).scroll_offset == old(self).scroll_offset
                },
            },
    {
        match failure {
            None => {
                let text = self.input.clone();
                self.lines.push(ChatLine::Sent(text));
                self.input.clear();
                self.scroll_offset = 0;
            },
            Some(why) => {
                self.lines.push(ChatLine::NotWritten(why));
            },
        }
        LoopAction::Redraw
    }

    /// Takes what a poll of the channel delivered. A message that is not
    /// empty joins the transcript; an empty one, and a poll that found
    /// nothing, change nothing. A disconnect ends the session after the
    /// notice was shown, and so does any fault: the loop fails closed.
    pub fn on_received(&mut self, outcome: ReceiveOutcome) -> (action: LoopAction)
        ensures
            final(self).input == old(self).input,
            final(self).scroll_offset == old(self).scroll_offset,
            match outcome {
                ReceiveOutcome::Message(text) => if text@.len() > 0 {
                    final(self).lines@ == old(self).lines@.push(ChatLine::Received(text))
                        && action is Redraw
                } else {
                    final(self).lines == old(self).lines && action is Nothing
                },
                ReceiveOutcome::WouldBlock => final(self).lines == old(self).lines
                    && action is Nothing,
                _ => final(self).lines@ == old(self).lines@.push(ChatLine::PeerGone) && action
                    == LoopAction::LeaveAfter(DISCONNECT_GRACE_MS),
            },
    {
        match outcome {
            ReceiveOutcome::Message(text) => {
                if text.as_str().is_empty() {
                    LoopAction::Nothing
                } else {
                    self.lines.push(ChatLine::Received(text));
                    LoopAction::Redraw
                }
            },
            ReceiveOutcome::WouldBlock => LoopAction::Nothing,
            _ => {
                self.lines.push(ChatLine::PeerGone);
                LoopAction::LeaveAfter(DISCONNECT_GRACE_MS)
            },
        }
    }
}

} // verus!
