use ev3_tunnel::frame::{CommandType, FrameFault};
use ev3_tunnel::relay::{step, FaultPolicy, RelayAction, RelayEvent, RelayState};

fn no_reply_request() -> Vec<u8> {
    vec![0x05, 0x00, 0x00, 0x00, 0x80, 0xAB, 0xCD]
}

fn reply_request() -> Vec<u8> {
    vec![0x05, 0x00, 0x00, 0x00, 0x00, 0xAB, 0xCD]
}

fn device_reply() -> Vec<u8> {
    vec![0x03, 0x00, 0x01, 0x00, 0xFF]
}

#[test]
fn request_is_forwarded_byte_for_byte() {
    for policy in [FaultPolicy::Discard, FaultPolicy::Terminate] {
        let (state, action) =
            step(RelayState::Idle, RelayEvent::RequestRead(reply_request()), policy);
        assert_eq!(state, RelayState::Forwarding(CommandType::DirectReply));
        assert_eq!(action, RelayAction::ForwardRequest(reply_request()));
    }
}

#[test]
fn no_reply_request_returns_to_idle_without_a_read() {
    let policy = FaultPolicy::Terminate;
    let (state, action) =
        step(RelayState::Idle, RelayEvent::RequestRead(no_reply_request()), policy);
    assert_eq!(state, RelayState::Forwarding(CommandType::DirectNoReply));
    assert_eq!(action, RelayAction::ForwardRequest(no_reply_request()));
    let (state, action) = step(state, RelayEvent::RequestSent, policy);
    assert_eq!(state, RelayState::Idle);
    assert_eq!(action, RelayAction::AwaitRequest);
}

#[test]
fn system_no_reply_request_does_not_block_either() {
    let frame = vec![0x03, 0x00, 0x07, 0x00, 0x81];
    let (state, _) =
        step(RelayState::Idle, RelayEvent::RequestRead(frame), FaultPolicy::Discard);
    assert_eq!(state, RelayState::Forwarding(CommandType::SystemNoReply));
    let (state, action) = step(state, RelayEvent::RequestSent, FaultPolicy::Discard);
    assert_eq!((state, action), (RelayState::Idle, RelayAction::AwaitRequest));
}

#[test]
fn reply_request_blocks_until_the_reply_is_relayed() {
    let policy = FaultPolicy::Terminate;
    let (state, action) =
        step(RelayState::Idle, RelayEvent::RequestRead(reply_request()), policy);
    assert_eq!(action, RelayAction::ForwardRequest(reply_request()));
    let (state, action) = step(state, RelayEvent::RequestSent, policy);
    assert_eq!(state, RelayState::AwaitingReply);
    assert_eq!(action, RelayAction::AwaitReply);
    let (state, action) = step(state, RelayEvent::ReplyRead(device_reply()), policy);
    assert_eq!(state, RelayState::Idle);
    assert_eq!(action, RelayAction::DeliverReply(device_reply()));
}

#[test]
fn keep_alive_is_answered_and_does_not_end_the_wait() {
    let policy = FaultPolicy::Discard;
    let (state, action) =
        step(RelayState::AwaitingReply, RelayEvent::KeepAlive(vec![1, 2, 3]), policy);
    assert_eq!(state, RelayState::AwaitingReply);
    assert_eq!(action, RelayAction::AnswerKeepAlive(vec![1, 2, 3]));
    let (state, action) = step(state, RelayEvent::Unrecognized, policy);
    assert_eq!((state, action), (RelayState::AwaitingReply, RelayAction::Ignore));
    let (state, action) = step(state, RelayEvent::ReplyRead(device_reply()), policy);
    assert_eq!(state, RelayState::Idle);
    assert_eq!(action, RelayAction::DeliverReply(device_reply()));
    let (state, action) = step(RelayState::Idle, RelayEvent::KeepAlive(vec![]), policy);
    assert_eq!((state, action), (RelayState::Idle, RelayAction::AnswerKeepAlive(vec![])));
}

#[test]
fn no_second_request_while_one_is_in_flight() {
    let policy = FaultPolicy::Discard;
    for state in [
        RelayState::AwaitingReply,
        RelayState::Forwarding(CommandType::DirectReply),
        RelayState::Forwarding(CommandType::SystemNoReply),
    ] {
        let (next, action) = step(state, RelayEvent::RequestRead(reply_request()), policy);
        assert_eq!(next, state);
        assert_eq!(action, RelayAction::Ignore);
    }
}

#[test]
fn events_out_of_turn_are_ignored() {
    let policy = FaultPolicy::Terminate;
    assert_eq!(
        step(RelayState::Idle, RelayEvent::ReplyRead(device_reply()), policy),
        (RelayState::Idle, RelayAction::Ignore)
    );
    assert_eq!(
        step(RelayState::Idle, RelayEvent::RequestSent, policy),
        (RelayState::Idle, RelayAction::Ignore)
    );
    assert_eq!(
        step(RelayState::AwaitingReply, RelayEvent::RequestSent, policy),
        (RelayState::AwaitingReply, RelayAction::Ignore)
    );
}

#[test]
fn faulty_request_is_dropped_or_ends_the_session() {
    let literal = vec![0x03, 0x00, 0x00, 0x00, 0x80, 0xAB, 0xCD];
    let fault = FrameFault::LengthMismatch { expected: 3, actual: 5 };
    assert_eq!(
        step(RelayState::Idle, RelayEvent::RequestRead(literal.clone()), FaultPolicy::Discard),
        (RelayState::Idle, RelayAction::Discard(fault, 7))
    );
    assert_eq!(
        step(RelayState::Idle, RelayEvent::RequestRead(literal), FaultPolicy::Terminate),
        (RelayState::Idle, RelayAction::Terminate(fault, 7))
    );
}

#[test]
fn request_with_unknown_tag_is_not_forwarded() {
    let frame = vec![0x03, 0x00, 0x00, 0x00, 0x42];
    assert_eq!(
        step(RelayState::Idle, RelayEvent::RequestRead(frame.clone()), FaultPolicy::Discard),
        (RelayState::Idle, RelayAction::Discard(FrameFault::MalformedFrame, 5))
    );
    assert_eq!(
        step(RelayState::Idle, RelayEvent::RequestRead(frame), FaultPolicy::Terminate),
        (RelayState::Idle, RelayAction::Terminate(FrameFault::MalformedFrame, 5))
    );
    assert_eq!(
        step(RelayState::Idle, RelayEvent::RequestRead(vec![]), FaultPolicy::Discard),
        (RelayState::Idle, RelayAction::Discard(FrameFault::MalformedFrame, 0))
    );
}

#[test]
fn faulty_reply_is_not_delivered() {
    let literal = vec![0x02, 0x00, 0x01, 0x00, 0xFF];
    let fault = FrameFault::LengthMismatch { expected: 2, actual: 3 };
    assert_eq!(
        step(RelayState::AwaitingReply, RelayEvent::ReplyRead(literal.clone()), FaultPolicy::Discard),
        (RelayState::AwaitingReply, RelayAction::Discard(fault, 5))
    );
    assert_eq!(
        step(RelayState::AwaitingReply, RelayEvent::ReplyRead(literal), FaultPolicy::Terminate),
        (RelayState::AwaitingReply, RelayAction::Terminate(fault, 5))
    );
}

#[test]
fn reply_after_a_dropped_one_is_still_delivered() {
    let policy = FaultPolicy::Discard;
    let (state, _) =
        step(RelayState::AwaitingReply, RelayEvent::ReplyRead(vec![0x09, 0x00, 0x01]), policy);
    assert_eq!(state, RelayState::AwaitingReply);
    let (state, action) = step(state, RelayEvent::ReplyRead(device_reply()), policy);
    assert_eq!((state, action), (RelayState::Idle, RelayAction::DeliverReply(device_reply())));
}

#[test]
fn reconnected_source_drops_the_pending_request() {
    for state in [
        RelayState::Idle,
        RelayState::AwaitingReply,
        RelayState::Forwarding(CommandType::SystemReply),
    ] {
        assert_eq!(
            step(state, RelayEvent::SourceReconnected, FaultPolicy::Terminate),
            (RelayState::Idle, RelayAction::AwaitRequest)
        );
    }
    let (state, action) = step(
        RelayState::Idle,
        RelayEvent::ReplyRead(device_reply()),
        FaultPolicy::Terminate,
    );
    assert_eq!((state, action), (RelayState::Idle, RelayAction::Ignore));
}

#[test]
fn each_reply_request_sees_one_reply_over_a_run() {
    let policy = FaultPolicy::Discard;
    let events = vec![
        RelayEvent::RequestRead(reply_request()),
        RelayEvent::RequestSent,
        RelayEvent::RequestRead(no_reply_request()),
        RelayEvent::KeepAlive(vec![9]),
        RelayEvent::ReplyRead(device_reply()),
        RelayEvent::ReplyRead(device_reply()),
        RelayEvent::RequestRead(no_reply_request()),
        RelayEvent::RequestSent,
        RelayEvent::RequestRead(reply_request()),
        RelayEvent::RequestSent,
        RelayEvent::ReplyRead(device_reply()),
    ];
    let mut state = RelayState::Idle;
    let mut forwarded = 0;
    let mut delivered = 0;
    for event in events {
        let (next, action) = step(state, event, policy);
        match action {
            RelayAction::ForwardRequest(_) => forwarded += 1,
            RelayAction::DeliverReply(_) => delivered += 1,
            _ => {}
        }
        state = next;
    }
    assert_eq!(state, RelayState::Idle);
    assert_eq!(forwarded, 3);
    assert_eq!(delivered, 2);
}
