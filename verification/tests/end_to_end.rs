use sandesh::channel::ReceiveOutcome;
use sandesh::discovery::{discovery_token, on_datagram, sweep};
use sandesh::keys::{
    perform_handshake, HandshakeAction, HandshakeEvent, HandshakeState, SharedSecret,
};
use sandesh::receive::{IoFailure, ReceiveAction, ReceiveEvent};
use sandesh::registry::{init_peers, PeerAddr};
use sandesh::session::{ChatLine, ChatWindow, KeyInput, LoopAction, Session};
use sandesh::signal::{
    handle_incoming_request, initiate_connection, InitiatorAction, InitiatorEvent, InitiatorState,
    ReceiverAction, ReceiverEvent, ReceiverState,
};

const A: PeerAddr = PeerAddr::V4 { ip: 0xC0A8_000A, port: 50_000 };
const B: PeerAddr = PeerAddr::V4 { ip: 0xC0A8_000B, port: 3000 };

/// One direction of a connection: the bytes written and not yet read.
struct Pipe {
    bytes: Vec<u8>,
}

impl Pipe {
    fn read_exact(&mut self, n: usize) -> Option<Vec<u8>> {
        if self.bytes.len() < n {
            return None;
        }
        Some(self.bytes.drain(..n).collect())
    }
}

/// Runs the receiver's consent with the given answer; returns its final
/// state.
fn receiver_side(answer: &str, to_initiator: &mut Pipe) -> ReceiverState {
    let mut state = ReceiverState::Idle;
    let mut event = ReceiverEvent::Incoming(A);
    loop {
        let (next, action) = handle_incoming_request(state, &event);
        state = next;
        event = match action {
            ReceiverAction::Prompt(peer) => {
                assert_eq!(peer, A);
                ReceiverEvent::Answer(answer.to_string())
            }
            ReceiverAction::SendSignal(byte) => {
                to_initiator.bytes.push(byte);
                ReceiverEvent::SignalSent
            }
            _ => return state,
        };
    }
}

fn initiator_side(listening: bool, from_receiver: &mut Pipe) -> InitiatorState {
    let mut state = InitiatorState::Idle;
    let mut event = InitiatorEvent::Start;
    loop {
        let (next, action) = initiate_connection(state, event);
        state = next;
        event = match action {
            InitiatorAction::Connect => {
                if listening {
                    InitiatorEvent::Done
                } else {
                    InitiatorEvent::Failed
                }
            }
            InitiatorAction::SetReadTimeout(_) => InitiatorEvent::Done,
            InitiatorAction::ReadSignal => match from_receiver.read_exact(1) {
                Some(byte) => InitiatorEvent::Signal(byte[0]),
                None => InitiatorEvent::Failed,
            },
            _ => return state,
        };
    }
}

/// One side of a key exchange in progress.
struct Side {
    state: HandshakeState,
    action: HandshakeAction,
    key: Option<SharedSecret>,
}

impl Side {
    fn start() -> Side {
        let (state, action) = perform_handshake(HandshakeState::Idle, HandshakeEvent::Start);
        Side { state, action, key: None }
    }

    /// Does what the exchange asks for next, if the pipes allow it.
    fn step(&mut self, out: &mut Pipe, inp: &mut Pipe) {
        if self.key.is_some() {
            return;
        }
        let event = match std::mem::replace(&mut self.action, HandshakeAction::ReadPeerKey) {
            HandshakeAction::SendKey(bytes) => {
                out.bytes.extend_from_slice(&bytes);
                HandshakeEvent::KeySent
            }
            HandshakeAction::ReadPeerKey => match inp.read_exact(32) {
                Some(bytes) => HandshakeEvent::PeerKey(bytes.try_into().unwrap()),
                None => return,
            },
            HandshakeAction::Established(shared) => {
                self.key = Some(shared);
                return;
            }
            HandshakeAction::Abort => panic!("exchange aborted"),
        };
        let taken = std::mem::replace(&mut self.state, HandshakeState::Failed);
        let (next, then) = perform_handshake(taken, event);
        self.state = next;
        self.action = then;
    }
}

/// Runs both sides of the key exchange over two pipes, step for step.
fn exchange() -> (SharedSecret, SharedSecret) {
    let mut a_to_b = Pipe { bytes: Vec::new() };
    let mut b_to_a = Pipe { bytes: Vec::new() };
    let mut a = Side::start();
    let mut b = Side::start();
    while a.key.is_none() || b.key.is_none() {
        a.step(&mut a_to_b, &mut b_to_a);
        b.step(&mut b_to_a, &mut a_to_b);
    }
    (a.key.unwrap(), b.key.unwrap())
}

fn poll(session: &mut Session, wire: &mut Pipe) -> ReceiveOutcome {
    assert!(session.is_idle());
    let mut action = session.try_receive(ReceiveEvent::Poll);
    loop {
        let event = match action {
            ReceiveAction::PeekHeader => {
                if wire.bytes.is_empty() {
                    ReceiveEvent::PeekFailed(IoFailure::WouldBlock)
                } else {
                    ReceiveEvent::Peeked(wire.bytes.len().min(4))
                }
            }
            ReceiveAction::ReadHeader => {
                ReceiveEvent::Header(wire.read_exact(4).unwrap().try_into().unwrap())
            }
            ReceiveAction::EnterBlocking | ReceiveAction::RestoreNonBlocking => {
                ReceiveEvent::ModeSet
            }
            ReceiveAction::ReadBody(n) => match wire.read_exact(n as usize) {
                Some(body) => ReceiveEvent::Body(body),
                None => ReceiveEvent::BodyFailed(IoFailure::EndOfStream),
            },
            ReceiveAction::Deliver(outcome) => {
                assert!(session.is_idle());
                return outcome;
            }
        };
        assert!(!session.is_idle());
        action = session.try_receive(event);
    }
}

#[test]
fn discovered_peer_expires_after_sixteen_silent_seconds() {
    // Node A broadcasts the token; node B hears it and records A.
    let beacon = discovery_token();
    let mut registry_of_b = init_peers();
    assert!(on_datagram(&mut registry_of_b, &beacon, A, 1_000));
    assert_eq!(registry_of_b.snapshot(), vec![A]);
    // B's janitor sweeps every two seconds; A stays silent.
    for now in (3_000..=15_000).step_by(2_000) {
        sweep(&mut registry_of_b, now);
        assert_eq!(registry_of_b.snapshot(), vec![A]);
    }
    sweep(&mut registry_of_b, 17_000);
    assert_eq!(registry_of_b.snapshot(), Vec::<PeerAddr>::new());
}

#[test]
fn hello_from_a_arrives_at_b() {
    // A connects to B and B's user accepts.
    let mut signal = Pipe { bytes: Vec::new() };
    assert_eq!(receiver_side("y\n", &mut signal), ReceiverState::Accepted);
    assert_eq!(signal.bytes, vec![b'Y']);
    assert_eq!(initiator_side(true, &mut signal), InitiatorState::Accepted);

    // Both sides derive the same secret.
    let (a_secret, b_secret) = exchange();
    assert_eq!(a_secret.to_bytes(), b_secret.to_bytes());
    assert_ne!(a_secret.to_bytes(), [0u8; 32]);

    // A types hello and sends it; B's poll yields it.
    let a = Session::new(B, a_secret);
    let mut b = Session::new(A, b_secret);
    let mut window_of_a = ChatWindow::new(B);
    for c in "hello".chars() {
        window_of_a.on_key(&a, KeyInput::Char(c), 24);
    }
    let mut wire = Pipe { bytes: Vec::new() };
    match window_of_a.on_key(&a, KeyInput::Enter, 24) {
        LoopAction::WriteFrame(frame) => wire.bytes.extend_from_slice(&frame),
        other => panic!("nothing to write: {:?}", other),
    }
    window_of_a.on_frame_written(None);
    assert_eq!(window_of_a.lines.last(), Some(&ChatLine::Sent("hello".to_string())));

    let mut window_of_b = ChatWindow::new(A);
    let outcome = poll(&mut b, &mut wire);
    assert_eq!(outcome, ReceiveOutcome::Message("hello".to_string()));
    assert_eq!(window_of_b.on_received(outcome), LoopAction::Redraw);
    assert_eq!(window_of_b.lines.last(), Some(&ChatLine::Received("hello".to_string())));
    assert_eq!(window_of_b.on_received(poll(&mut b, &mut wire)), LoopAction::Nothing);
}

#[test]
fn rejected_timed_out_and_unreachable() {
    let mut signal = Pipe { bytes: Vec::new() };
    assert_eq!(receiver_side("n", &mut signal), ReceiverState::Rejected);
    assert_eq!(signal.bytes, vec![b'N']);
    assert_eq!(initiator_side(true, &mut signal), InitiatorState::Rejected);

    let mut silent = Pipe { bytes: Vec::new() };
    assert_eq!(initiator_side(true, &mut silent), InitiatorState::TimedOut);

    let mut nobody = Pipe { bytes: Vec::new() };
    assert_eq!(initiator_side(false, &mut nobody), InitiatorState::ConnectFailed);
}
