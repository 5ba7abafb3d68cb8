use sandesh::registry::PeerAddr;
use sandesh::signal::{
    handle_incoming_request, initiate_connection, is_consent, InitiatorAction, InitiatorEvent,
    InitiatorState, ReceiverAction, ReceiverEvent, ReceiverState, SIGNAL_ACCEPT, SIGNAL_REJECT,
    SIGNAL_TIMEOUT_MS,
};

const PEER: PeerAddr = PeerAddr::V4 { ip: 0xC0A8_0105, port: 51_234 };

#[test]
fn signal_bytes_are_y_and_n() {
    assert_eq!(SIGNAL_ACCEPT, b'Y');
    assert_eq!(SIGNAL_REJECT, b'N');
    assert_eq!(SIGNAL_TIMEOUT_MS, 10_000);
}

#[test]
fn a_lone_y_consents() {
    assert!(is_consent("y"));
    assert!(is_consent("Y"));
    assert!(is_consent("y\n"));
    assert!(is_consent("Y\r\n"));
    assert!(is_consent("  y  "));
    assert!(is_consent("\t\u{a0}y\u{3000}\n"));
}

#[test]
fn anything_else_refuses() {
    assert!(!is_consent(""));
    assert!(!is_consent("\n"));
    assert!(!is_consent("   "));
    assert!(!is_consent("n"));
    assert!(!is_consent("N\n"));
    assert!(!is_consent("yes"));
    assert!(!is_consent("yy"));
    assert!(!is_consent("y y"));
    assert!(!is_consent("y."));
    assert!(!is_consent("ny"));
    assert!(!is_consent("ｙ"));
    assert!(!is_consent("ý"));
    assert!(!is_consent("1"));
}

#[test]
fn consent_is_the_trimmed_comparison() {
    for answer in ["y", " Y\n", "yes", "", " ", "n", "y\u{85}", "\u{2028}y", "Yy", "y\0"] {
        assert_eq!(is_consent(answer), answer.trim().eq_ignore_ascii_case("y"), "{:?}", answer);
    }
}

fn receive(events: Vec<ReceiverEvent>) -> (ReceiverState, Vec<ReceiverAction>) {
    let mut state = ReceiverState::Idle;
    let mut actions = Vec::new();
    for event in events {
        let (next, action) = handle_incoming_request(state, &event);
        state = next;
        actions.push(action);
    }
    (state, actions)
}

#[test]
fn receiver_accepts_on_yes() {
    let (state, actions) = receive(vec![
        ReceiverEvent::Incoming(PEER),
        ReceiverEvent::Answer("y\n".to_string()),
        ReceiverEvent::SignalSent,
    ]);
    assert_eq!(state, ReceiverState::Accepted);
    assert_eq!(
        actions,
        vec![
            ReceiverAction::Prompt(PEER),
            ReceiverAction::SendSignal(b'Y'),
            ReceiverAction::StartKeyExchange
        ]
    );
}

#[test]
fn receiver_rejects_on_anything_else() {
    for answer in ["n\n", "\n", "", "no", "maybe"] {
        let (state, actions) = receive(vec![
            ReceiverEvent::Incoming(PEER),
            ReceiverEvent::Answer(answer.to_string()),
            ReceiverEvent::SignalSent,
        ]);
        assert_eq!(state, ReceiverState::Rejected);
        assert_eq!(
            actions,
            vec![
                ReceiverAction::Prompt(PEER),
                ReceiverAction::SendSignal(b'N'),
                ReceiverAction::ReportRejected
            ]
        );
    }
}

#[test]
fn receiver_swallows_a_failed_reject() {
    let (state, actions) = receive(vec![
        ReceiverEvent::Incoming(PEER),
        ReceiverEvent::Answer("n".to_string()),
        ReceiverEvent::SendFailed,
    ]);
    assert_eq!(state, ReceiverState::Rejected);
    assert_eq!(actions[2], ReceiverAction::ReportRejected);
}

#[test]
fn receiver_gives_up_on_a_failed_accept() {
    let (state, actions) = receive(vec![
        ReceiverEvent::Incoming(PEER),
        ReceiverEvent::Answer("y".to_string()),
        ReceiverEvent::SendFailed,
    ]);
    assert_eq!(state, ReceiverState::Failed);
    assert_eq!(actions[2], ReceiverAction::Abort);
}

#[test]
fn receiver_gives_up_without_an_answer() {
    let (state, actions) =
        receive(vec![ReceiverEvent::Incoming(PEER), ReceiverEvent::InputFailed]);
    assert_eq!(state, ReceiverState::Failed);
    assert_eq!(actions[1], ReceiverAction::Abort);
}

#[test]
fn receiver_stays_settled() {
    for settled in [ReceiverState::Accepted, ReceiverState::Rejected, ReceiverState::Failed] {
        for event in [
            ReceiverEvent::Incoming(PEER),
            ReceiverEvent::Answer("y".to_string()),
            ReceiverEvent::SignalSent,
            ReceiverEvent::SendFailed,
            ReceiverEvent::InputFailed,
        ] {
            assert_eq!(
                handle_incoming_request(settled, &event),
                (settled, ReceiverAction::Nothing)
            );
        }
    }
}

#[test]
fn receiver_refuses_events_out_of_turn() {
    assert_eq!(
        handle_incoming_request(ReceiverState::Idle, &ReceiverEvent::Answer("y".to_string())),
        (ReceiverState::Failed, ReceiverAction::Abort)
    );
    assert_eq!(
        handle_incoming_request(ReceiverState::AwaitingConsent, &ReceiverEvent::SignalSent),
        (ReceiverState::Failed, ReceiverAction::Abort)
    );
    assert_eq!(
        handle_incoming_request(ReceiverState::SendingAccept, &ReceiverEvent::Incoming(PEER)),
        (ReceiverState::Failed, ReceiverAction::Abort)
    );
}

fn initiate(events: &[InitiatorEvent]) -> (InitiatorState, Vec<InitiatorAction>) {
    let mut state = InitiatorState::Idle;
    let mut actions = Vec::new();
    for event in events {
        let (next, action) = initiate_connection(state, *event);
        state = next;
        actions.push(action);
    }
    (state, actions)
}

#[test]
fn initiator_is_accepted_on_the_accept_byte() {
    let (state, actions) = initiate(&[
        InitiatorEvent::Start,
        InitiatorEvent::Done,
        InitiatorEvent::Done,
        InitiatorEvent::Signal(b'Y'),
        InitiatorEvent::Done,
    ]);
    assert_eq!(state, InitiatorState::Accepted);
    assert_eq!(
        actions,
        vec![
            InitiatorAction::Connect,
            InitiatorAction::SetReadTimeout(Some(10_000)),
            InitiatorAction::ReadSignal,
            InitiatorAction::SetReadTimeout(None),
            InitiatorAction::StartKeyExchange
        ]
    );
}

#[test]
fn initiator_is_rejected_by_a_receiver_that_answers_n() {
    let (_, sent) = receive(vec![
        ReceiverEvent::Incoming(PEER),
        ReceiverEvent::Answer("n".to_string()),
    ]);
    let byte = match sent[1] {
        ReceiverAction::SendSignal(byte) => byte,
        other => panic!("no signal: {:?}", other),
    };
    let (state, actions) = initiate(&[
        InitiatorEvent::Start,
        InitiatorEvent::Done,
        InitiatorEvent::Done,
        InitiatorEvent::Signal(byte),
    ]);
    assert_eq!(state, InitiatorState::Rejected);
    assert_eq!(actions[3], InitiatorAction::ReportRejected);
}

#[test]
fn initiator_takes_any_other_byte_for_a_rejection() {
    for byte in 0..=255u8 {
        let step = initiate_connection(InitiatorState::AwaitingSignal, InitiatorEvent::Signal(byte));
        if byte == b'Y' {
            assert_eq!(
                step,
                (InitiatorState::ClearingTimeout, InitiatorAction::SetReadTimeout(None))
            );
        } else {
            assert_eq!(step, (InitiatorState::Rejected, InitiatorAction::ReportRejected));
        }
    }
}

#[test]
fn initiator_times_out_without_a_signal() {
    let (state, actions) = initiate(&[
        InitiatorEvent::Start,
        InitiatorEvent::Done,
        InitiatorEvent::Done,
        InitiatorEvent::Failed,
    ]);
    assert_eq!(state, InitiatorState::TimedOut);
    assert_eq!(actions[1], InitiatorAction::SetReadTimeout(Some(SIGNAL_TIMEOUT_MS)));
    assert_eq!(actions[3], InitiatorAction::ReportTimedOut);
}

#[test]
fn initiator_reports_a_target_that_does_not_listen() {
    let (state, actions) = initiate(&[InitiatorEvent::Start, InitiatorEvent::Failed]);
    assert_eq!(state, InitiatorState::ConnectFailed);
    assert_eq!(actions, vec![InitiatorAction::Connect, InitiatorAction::ReportConnectFailed]);
}

#[test]
fn initiator_gives_up_where_the_deadline_cannot_be_set_or_lifted() {
    let (state, actions) =
        initiate(&[InitiatorEvent::Start, InitiatorEvent::Done, InitiatorEvent::Failed]);
    assert_eq!(state, InitiatorState::Failed);
    assert_eq!(actions[2], InitiatorAction::Abort);
    let (state, actions) = initiate(&[
        InitiatorEvent::Start,
        InitiatorEvent::Done,
        InitiatorEvent::Done,
        InitiatorEvent::Signal(b'Y'),
        InitiatorEvent::Failed,
    ]);
    assert_eq!(state, InitiatorState::Failed);
    assert_eq!(actions[4], InitiatorAction::Abort);
}

#[test]
fn initiator_makes_one_attempt() {
    for settled in [
        InitiatorState::Accepted,
        InitiatorState::Rejected,
        InitiatorState::TimedOut,
        InitiatorState::ConnectFailed,
        InitiatorState::Failed,
    ] {
        for event in [
            InitiatorEvent::Start,
            InitiatorEvent::Done,
            InitiatorEvent::Failed,
            InitiatorEvent::Signal(b'Y'),
        ] {
            assert_eq!(initiate_connection(settled, event), (settled, InitiatorAction::Nothing));
        }
    }
}

#[test]
fn initiator_refuses_events_out_of_turn() {
    assert_eq!(
        initiate_connection(InitiatorState::Idle, InitiatorEvent::Signal(b'Y')),
        (InitiatorState::Failed, InitiatorAction::Abort)
    );
    assert_eq!(
        initiate_connection(InitiatorState::Connecting, InitiatorEvent::Signal(b'Y')),
        (InitiatorState::Failed, InitiatorAction::Abort)
    );
    assert_eq!(
        initiate_connection(InitiatorState::AwaitingSignal, InitiatorEvent::Done),
        (InitiatorState::Failed, InitiatorAction::Abort)
    );
}
