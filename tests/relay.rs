use elevenlabs_vista::relay::{Relay, RelayAction, RelayEvent, RelayState};

fn status(code: u16, line: &str, body: &str) -> RelayEvent {
    RelayEvent::Status { code, status_line: line.to_string(), body: body.to_string() }
}

fn is_wait(a: &RelayAction) -> bool {
    matches!(a, RelayAction::Wait)
}

fn forwarded(a: RelayAction) -> Option<Vec<u8>> {
    match a {
        RelayAction::Forward(c) => Some(c),
        _ => None,
    }
}

#[test]
fn relay_forwards_chunks_in_order_then_completes() {
    let mut relay = Relay::new();
    assert!(matches!(relay.state(), RelayState::Idle));
    assert!(is_wait(&relay.step(RelayEvent::Sent)));
    assert!(matches!(relay.state(), RelayState::Requesting));
    assert!(is_wait(&relay.step(status(200, "200 OK", ""))));
    assert!(matches!(relay.state(), RelayState::Streaming));
    let mut ui: Vec<Vec<u8>> = Vec::new();
    for chunk in [vec![1u8, 2], vec![3u8], vec![4u8, 5, 6]] {
        let c = forwarded(relay.step(RelayEvent::Chunk(chunk))).expect("forward");
        ui.push(c);
        assert!(!matches!(relay.state(), RelayState::Complete));
    }
    assert_eq!(ui, vec![vec![1u8, 2], vec![3u8], vec![4u8, 5, 6]]);
    assert!(matches!(relay.step(RelayEvent::Ended), RelayAction::Succeed));
    assert!(matches!(relay.state(), RelayState::Complete));
}

#[test]
fn relay_rejected_status_forwards_nothing() {
    let mut relay = Relay::new();
    relay.step(RelayEvent::Sent);
    match relay.step(status(401, "401 Unauthorized", "invalid key")) {
        RelayAction::Fail(m) => assert_eq!(m, "API returned error 401 Unauthorized: invalid key"),
        _ => panic!("expected a failure"),
    }
    match relay.state() {
        RelayState::Failed(m) => assert_eq!(m, "API returned error 401 Unauthorized: invalid key"),
        _ => panic!("expected the failed state"),
    }
    assert!(is_wait(&relay.step(RelayEvent::Chunk(vec![9u8]))));
    assert!(is_wait(&relay.step(RelayEvent::Ended)));
    assert!(matches!(relay.state(), RelayState::Failed(_)));
}

#[test]
fn relay_failure_after_two_chunks_keeps_them() {
    let mut relay = Relay::new();
    relay.step(RelayEvent::Sent);
    relay.step(status(200, "200 OK", ""));
    let mut ui: Vec<Vec<u8>> = Vec::new();
    ui.push(forwarded(relay.step(RelayEvent::Chunk(vec![b'A']))).unwrap());
    ui.push(forwarded(relay.step(RelayEvent::Chunk(vec![b'B']))).unwrap());
    let third = forwarded(relay.step(RelayEvent::Chunk(vec![b'C']))).unwrap();
    assert_eq!(third, vec![b'C']);
    match relay.step(RelayEvent::ForwardFailed("channel closed".to_string())) {
        RelayAction::Fail(m) => assert_eq!(m, "channel closed"),
        _ => panic!("expected a failure"),
    }
    assert_eq!(ui, vec![vec![b'A'], vec![b'B']]);
    assert!(matches!(relay.state(), RelayState::Failed(_)));
    assert!(is_wait(&relay.step(RelayEvent::Ended)));
}

#[test]
fn relay_read_failure_fails() {
    let mut relay = Relay::new();
    relay.step(RelayEvent::Sent);
    relay.step(status(204, "204 No Content", ""));
    match relay.step(RelayEvent::ReadFailed("reset".to_string())) {
        RelayAction::Fail(m) => assert_eq!(m, "reset"),
        _ => panic!("expected a failure"),
    }
}

#[test]
fn relay_send_failure_fails() {
    let mut relay = Relay::new();
    match relay.step(RelayEvent::SendFailed("dns".to_string())) {
        RelayAction::Fail(m) => assert_eq!(m, "dns"),
        _ => panic!("expected a failure"),
    }
    assert!(matches!(relay.state(), RelayState::Failed(_)));
}

#[test]
fn relay_boundary_statuses() {
    let mut ok = Relay::new();
    ok.step(RelayEvent::Sent);
    assert!(is_wait(&ok.step(status(299, "299", ""))));
    assert!(matches!(ok.state(), RelayState::Streaming));
    let mut redirect = Relay::new();
    redirect.step(RelayEvent::Sent);
    assert!(matches!(redirect.step(status(300, "300 Multiple Choices", "")), RelayAction::Fail(_)));
    let mut low = Relay::new();
    low.step(RelayEvent::Sent);
    assert!(matches!(low.step(status(199, "199", "")), RelayAction::Fail(_)));
}

#[test]
fn relay_ignores_events_out_of_place() {
    let mut relay = Relay::new();
    assert!(is_wait(&relay.step(RelayEvent::Chunk(vec![1u8]))));
    assert!(matches!(relay.state(), RelayState::Idle));
    relay.step(RelayEvent::Sent);
    assert!(is_wait(&relay.step(RelayEvent::Ended)));
    assert!(matches!(relay.state(), RelayState::Requesting));
}
