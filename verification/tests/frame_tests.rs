use ev3_tunnel::frame::{
    classify, inspect, is_rollover, read_le_u16, sequence_number, validate, CommandType,
    FrameFault, SequenceTracker, DIRECT_COMMAND_NO_REPLY, DIRECT_COMMAND_REPLY, HEADER_LEN,
    SYSTEM_COMMAND_NO_REPLY, SYSTEM_COMMAND_REPLY,
};

fn frame_with_tag(tag: u8) -> Vec<u8> {
    vec![0x05, 0x00, 0x2A, 0x00, tag, 0xAB, 0xCD]
}

#[test]
fn tag_constants_have_their_wire_values() {
    assert_eq!(DIRECT_COMMAND_REPLY, 0x00);
    assert_eq!(SYSTEM_COMMAND_REPLY, 0x01);
    assert_eq!(DIRECT_COMMAND_NO_REPLY, 0x80);
    assert_eq!(SYSTEM_COMMAND_NO_REPLY, 0x81);
    assert_eq!(HEADER_LEN, 5);
}

#[test]
fn classify_knows_the_four_tags() {
    assert_eq!(classify(&frame_with_tag(0x00)), Ok(CommandType::DirectReply));
    assert_eq!(classify(&frame_with_tag(0x01)), Ok(CommandType::SystemReply));
    assert_eq!(classify(&frame_with_tag(0x80)), Ok(CommandType::DirectNoReply));
    assert_eq!(classify(&frame_with_tag(0x81)), Ok(CommandType::SystemNoReply));
}

#[test]
fn classify_rejects_every_other_tag() {
    for tag in 0u8..=255 {
        let known = tag == 0x00 || tag == 0x01 || tag == 0x80 || tag == 0x81;
        let result = classify(&frame_with_tag(tag));
        if known {
            assert!(result.is_ok());
        } else {
            assert_eq!(result, Err(FrameFault::MalformedFrame));
        }
    }
}

#[test]
fn classify_rejects_a_truncated_header() {
    assert_eq!(classify(&[]), Err(FrameFault::MalformedFrame));
    assert_eq!(classify(&[0x02, 0x00, 0x00, 0x00]), Err(FrameFault::MalformedFrame));
    assert_eq!(classify(&[0x03, 0x00, 0x00, 0x00, 0x80]), Ok(CommandType::DirectNoReply));
}

#[test]
fn classify_reads_only_the_tag() {
    let frame = [0x03, 0x00, 0x00, 0x00, 0x80, 0xAB, 0xCD];
    assert_eq!(classify(&frame), Ok(CommandType::DirectNoReply));
    let frame = [0x03, 0x00, 0x00, 0x00, 0x00, 0xAB, 0xCD];
    assert_eq!(classify(&frame), Ok(CommandType::DirectReply));
}

#[test]
fn tags_and_types_correspond() {
    let kinds = [
        CommandType::DirectReply,
        CommandType::SystemReply,
        CommandType::DirectNoReply,
        CommandType::SystemNoReply,
    ];
    for kind in kinds {
        assert_eq!(CommandType::from_tag(kind.tag()), Some(kind));
    }
    assert_eq!(CommandType::from_tag(0x02), None);
    assert_eq!(CommandType::DirectNoReply.tag(), 0x80);
    assert_eq!(CommandType::SystemNoReply.tag(), 0x81);
}

#[test]
fn only_reply_types_expect_a_reply() {
    assert!(CommandType::DirectReply.expects_reply());
    assert!(CommandType::SystemReply.expects_reply());
    assert!(!CommandType::DirectNoReply.expects_reply());
    assert!(!CommandType::SystemNoReply.expects_reply());
}

#[test]
fn validate_accepts_a_matching_length() {
    assert_eq!(validate(&[0x05, 0x00, 0x00, 0x00, 0x80, 0xAB, 0xCD]), Ok(()));
    assert_eq!(validate(&[0x00, 0x00]), Ok(()));
    assert_eq!(validate(&[0x03, 0x00, 0x01, 0x00, 0x02]), Ok(()));
}

#[test]
fn validate_reads_the_length_little_endian() {
    let mut frame = vec![0x02, 0x01];
    frame.extend(std::iter::repeat(0u8).take(258));
    assert_eq!(validate(&frame), Ok(()));
    frame.push(0);
    assert_eq!(
        validate(&frame),
        Err(FrameFault::LengthMismatch { expected: 258, actual: 259 })
    );
}

#[test]
fn validate_reports_header_five_body_four() {
    let frame = [0x05, 0x00, 0x00, 0x00, 0x80, 0xAB];
    assert_eq!(frame.len() - 2, 4);
    assert_eq!(
        validate(&frame),
        Err(FrameFault::LengthMismatch { expected: 5, actual: 4 })
    );
}

#[test]
fn validate_succeeds_exactly_when_the_length_agrees() {
    for declared in 0u16..12 {
        for body in 0usize..12 {
            let mut frame = vec![declared as u8, 0x00];
            frame.extend(std::iter::repeat(0x80u8).take(body));
            let result = validate(&frame);
            assert_eq!(result.is_ok(), body == declared as usize);
            if body != declared as usize {
                assert_eq!(
                    result,
                    Err(FrameFault::LengthMismatch { expected: declared, actual: body })
                );
            }
        }
    }
}

#[test]
fn validate_rejects_a_frame_without_a_length() {
    assert_eq!(validate(&[]), Err(FrameFault::MalformedFrame));
    assert_eq!(validate(&[0x00]), Err(FrameFault::MalformedFrame));
}

#[test]
fn inspect_reports_the_framing_fault_first() {
    assert_eq!(
        inspect(&[0x03, 0x00, 0x00, 0x00, 0x80, 0xAB, 0xCD]),
        Err(FrameFault::LengthMismatch { expected: 3, actual: 5 })
    );
    assert_eq!(
        inspect(&[0x05, 0x00, 0x00, 0x00, 0x80, 0xAB, 0xCD]),
        Ok(CommandType::DirectNoReply)
    );
    assert_eq!(
        inspect(&[0x05, 0x00, 0x00, 0x00, 0x7F, 0xAB, 0xCD]),
        Err(FrameFault::MalformedFrame)
    );
    assert_eq!(inspect(&[0x01, 0x00, 0x00]), Err(FrameFault::MalformedFrame));
}

#[test]
fn sequence_number_is_little_endian() {
    assert_eq!(sequence_number(&[0x03, 0x00, 0x34, 0x12, 0x80]), Ok(0x1234));
    assert_eq!(sequence_number(&[0x02, 0x00, 0xFF, 0xFF]), Ok(65535));
    assert_eq!(sequence_number(&[0x02, 0x00, 0x01]), Err(FrameFault::MalformedFrame));
    assert_eq!(read_le_u16(0x34, 0x12), 0x1234);
    assert_eq!(read_le_u16(0xFF, 0xFF), 65535);
    assert_eq!(read_le_u16(0x00, 0x01), 256);
}

#[test]
fn rollover_is_a_smaller_successor() {
    assert!(is_rollover(65535, 0));
    assert!(is_rollover(10, 9));
    assert!(!is_rollover(9, 10));
    assert!(!is_rollover(7, 7));
}

#[test]
fn tracker_flags_rollover_and_goes_on() {
    let mut tracker = SequenceTracker::new();
    assert_eq!(tracker.last, None);
    assert!(!tracker.observe(65534));
    assert!(!tracker.observe(65535));
    assert!(tracker.observe(0));
    assert_eq!(tracker.last, Some(0));
    assert!(!tracker.observe(0));
    assert!(!tracker.observe(1));
    assert_eq!(tracker.last, Some(1));
}
