//! The wire format of one device command or reply.
//!
//! A frame is a little-endian length prefix of two bytes (counting everything
//! after itself), a sequence number of two bytes, one tag byte, and the body.

use vstd::prelude::*;

verus! {

/// Tag of a direct command that the device answers.
pub const DIRECT_COMMAND_REPLY: u8 = 0x00;

/// Tag of a system command that the device answers.
pub const SYSTEM_COMMAND_REPLY: u8 = 0x01;

/// Tag of a direct command that the device does not answer.
pub const DIRECT_COMMAND_NO_REPLY: u8 = 0x80;

/// Tag of a system command that the device does not answer.
pub const SYSTEM_COMMAND_NO_REPLY: u8 = 0x81;

/// Bytes of the fixed header: length, sequence number, tag.
pub const HEADER_LEN: usize = 5;

/// How a command is to be treated once it has been forwarded.
#[derive(Clone, Copy, Debug, PartialEq, Eq, Structural)]
pub enum CommandType {
    DirectReply,
    SystemReply,
    DirectNoReply,
    SystemNoReply,
}

/// A fault in the framing of a byte sequence.
#[derive(Clone, Copy, Debug, PartialEq, Eq, Structural)]
pub enum FrameFault {
    /// The header is cut short, or the tag is none of the four known ones.
    MalformedFrame,
    /// The length prefix announces `expected` bytes and `actual` bytes follow it.
    LengthMismatch { expected: u16, actual: usize },
}

/// The number that two bytes spell in little-endian order.
pub open spec fn le_u16(lo: u8, hi: u8) -> int {
    lo as int + 256 * (hi as int)
}

/// The command type that a tag byte stands for, if any.
pub open spec fn tag_type(tag: u8) -> Option<CommandType> {
    if tag == DIRECT_COMMAND_REPLY {
        Some(CommandType::DirectReply)
    } else if tag == SYSTEM_COMMAND_REPLY {
        Some(CommandType::SystemReply)
    } else if tag == DIRECT_COMMAND_NO_REPLY {
        Some(CommandType::DirectNoReply)
    } else if tag == SYSTEM_COMMAND_NO_REPLY {
        Some(CommandType::SystemNoReply)
    } else {
        None
    }
}

/// Whether the device answers a command of this type.
pub open spec fn reply_expected(kind: CommandType) -> bool {
    kind is DirectReply || kind is SystemReply
}

/// The length prefix agrees with the number of bytes that follow it.
pub open spec fn well_formed(frame: Seq<u8>) -> bool {
    frame.len() >= 2 && frame.len() - 2 == le_u16(frame[0], frame[1])
}

/// What `classify` returns.
pub open spec fn classify_spec(frame: Seq<u8>) -> Result<CommandType, FrameFault> {
    if frame.len() < HEADER_LEN {
        Err(FrameFault::MalformedFrame)
    } else {
        match tag_type(frame[4]) {
            Some(kind) => Ok(kind),
            None => Err(FrameFault::MalformedFrame),
        }
    }
}

/// What `validate` returns.
pub open spec fn validate_spec(frame: Seq<u8>) -> Result<(), FrameFault> {
    if frame.len() < 2 {
        Err(FrameFault::MalformedFrame)
    } else if frame.len() - 2 == le_u16(frame[0], frame[1]) {
        Ok(())
    } else {
        Err(
            FrameFault::LengthMismatch {
                expected: le_u16(frame[0], frame[1]) as u16,
                actual: (frame.len() - 2) as usize,
            },
        )
    }
}

/// What `inspect` returns: the framing fault if there is one, else the
/// classification.
pub open spec fn inspect_spec(frame: Seq<u8>) -> Result<CommandType, FrameFault> {
    match validate_spec(frame) {
        Err(fault) => Err(fault),
        Ok(_) => classify_spec(frame),
    }
}

/// What `sequence_number` returns.
pub open spec fn sequence_number_spec(frame: Seq<u8>) -> Result<u16, FrameFault> {
    if frame.len() < 4 {
        Err(FrameFault::MalformedFrame)
    } else {
        Ok(le_u16(frame[2], frame[3]) as u16)
    }
}

impl CommandType {
    /// The command type of a tag byte; `None` for a byte that is no known tag.
    pub fn from_tag(tag: u8) -> (r: Option<CommandType>)
        ensures
            r == tag_type(tag),
    {
        if tag == DIRECT_COMMAND_REPLY {
            Some(CommandType::DirectReply)
        } else if tag == SYSTEM_COMMAND_REPLY {
            Some(CommandType::SystemReply)
        } else if tag == DIRECT_COMMAND_NO_REPLY {
            Some(CommandType::DirectNoReply)
        } else if tag == SYSTEM_COMMAND_NO_REPLY {
            Some(CommandType::SystemNoReply)
        } else {
            None
        }
    }

    /// The tag byte that stands for this command type.
    pub fn tag(self) -> (r: u8)
        ensures
            tag_type(r) == Some(self),
            r == match self {
                CommandType::DirectReply => DIRECT_COMMAND_REPLY,
                CommandType::SystemReply => SYSTEM_COMMAND_REPLY,
                CommandType::DirectNoReply => DIRECT_COMMAND_NO_REPLY,
                CommandType::SystemNoReply => SYSTEM_COMMAND_NO_REPLY,
            },
    {
        match self {
            CommandType::DirectReply => DIRECT_COMMAND_REPLY,
            CommandType::SystemReply => SYSTEM_COMMAND_REPLY,
            CommandType::DirectNoReply => DIRECT_COMMAND_NO_REPLY,
            CommandType::SystemNoReply => SYSTEM_COMMAND_NO_REPLY,
        }
    }

    /// Whether the relay has to wait for the device's answer.
    pub fn expects_reply(self) -> (r: bool)
        ensures
            r == reply_expected(self),
    {
        match self {
            CommandType::DirectReply => true,
            CommandType::SystemReply => true,
            CommandType::DirectNoReply => false,
            CommandType::SystemNoReply => false,
        }
    }
}

/// Reads two bytes as a little-endian number.
pub fn read_le_u16(lo: u8, hi: u8) -> (r: u16)
    ensures
        r == le_u16(lo, hi),
{
    let low: u16 = lo as u16;
    let high: u16 = hi as u16;
    low + 256 * high
}

/// Classifies a frame by its tag byte. A frame of fewer than five bytes, or
/// one whose tag is none of the four known ones, is malformed.
pub fn classify(frame: &[u8]) -> (r: Result<CommandType, FrameFault>)
    ensures
        r == classify_spec(frame@),
{
    if frame.len() < HEADER_LEN {
        return Err(FrameFault::MalformedFrame);
    }
    match CommandType::from_tag(frame[4]) {
        Some(kind) => Ok(kind),
        None => Err(FrameFault::MalformedFrame),
    }
}

/// Holds the length prefix against the number of bytes that follow it. A
/// frame too short to hold the prefix is malformed.
pub fn validate(frame: &[u8]) -> (r: Result<(), FrameFault>)
    ensures
        r == validate_spec(frame@),
        frame@.len() >= 2 ==> (r is Ok <==> frame@.len() - 2 == le_u16(frame@[0], frame@[1])),
        r is Ok <==> well_formed(frame@),
{
    if frame.len() < 2 {
        return Err(FrameFault::MalformedFrame);
    }
    let expected: u16 = read_le_u16(frame[0], frame[1]);
    let actual: usize = frame.len() - 2;
    if actual == expected as usize {
        Ok(())
    } else {
        Err(FrameFault::LengthMismatch { expected, actual })
    }
}

/// Validates a frame and, if its framing is sound, classifies it.
pub fn inspect(frame: &[u8]) -> (r: Result<CommandType, FrameFault>)
    ensures
        r == inspect_spec(frame@),
{
    match validate(frame) {
        Err(fault) => Err(fault),
        Ok(_) => classify(frame),
    }
}

/// The sequence number in a frame's header. A frame of fewer than four bytes
/// is malformed.
pub fn sequence_number(frame: &[u8]) -> (r: Result<u16, FrameFault>)
    ensures
        r == sequence_number_spec(frame@),
{
    if frame.len() < 4 {
        return Err(FrameFault::MalformedFrame);
    }
    Ok(read_le_u16(frame[2], frame[3]))
}

/// Whether a sequence number has fallen below the one before it, which is how
/// the 16-bit counter shows that it has wrapped round. This is information for
/// the caller, never a fault.
pub fn is_rollover(previous: u16, next: u16) -> (r: bool)
    ensures
        r == (next < previous),
{
    next < previous
}

/// Remembers the last sequence number of a session.
#[derive(Clone, Copy, Debug, PartialEq, Eq, Structural)]
pub struct SequenceTracker {
    pub last: Option<u16>,
}

impl SequenceTracker {
    /// A tracker that has seen no frame yet.
    pub fn new() -> (r: SequenceTracker)
        ensures
            r.last is None,
    {
        SequenceTracker { last: None }
    }

    /// Takes note of the next sequence number and says whether the counter
    /// wrapped round to reach it. The first number of a session never does.
    pub fn observe(&mut self, next: u16) -> (rollover: bool)
        ensures
            rollover == (old(self).last matches Some(previous) && next < previous),
            final(self).last == Some(next),
    {
        let rollover = match self.last {
            Some(previous) => is_rollover(previous, next),
            None => false,
        };
        self.last = Some(next);
        rollover
    }
}

/// A length prefix and the bytes that follow it agree exactly when the frame
/// validates: success and agreement are the same thing for every frame long
/// enough to hold the prefix, and a mismatch is reported with both numbers.
pub proof fn lemma_validate_iff_length_agrees(frame: Seq<u8>)
    requires
        frame.len() >= 2,
    ensures
        validate_spec(frame) is Ok <==> frame.len() - 2 == le_u16(frame[0], frame[1]),
        validate_spec(frame) is Err ==> validate_spec(frame) == Err::<(), FrameFault>(
            FrameFault::LengthMismatch {
                expected: le_u16(frame[0], frame[1]) as u16,
                actual: (frame.len() - 2) as usize,
            },
        ),
{
}

/// Each of the four tags is classified as documented, and a frame with any
/// other tag byte is rejected as malformed.
pub proof fn lemma_classify_by_tag(frame: Seq<u8>)
    requires
        frame.len() >= HEADER_LEN,
    ensures
        frame[4] == 0x00 ==> classify_spec(frame) == Ok::<CommandType, FrameFault>(
            CommandType::DirectReply,
        ),
        frame[4] == 0x01 ==> classify_spec(frame) == Ok::<CommandType, FrameFault>(
            CommandType::SystemReply,
        ),
        frame[4] == 0x80 ==> classify_spec(frame) == Ok::<CommandType, FrameFault>(
            CommandType::DirectNoReply,
        ),
        frame[4] == 0x81 ==> classify_spec(frame) == Ok::<CommandType, FrameFault>(
            CommandType::SystemNoReply,
        ),
        frame[4] != 0x00 && frame[4] != 0x01 && frame[4] != 0x80 && frame[4] != 0x81
            ==> classify_spec(frame) == Err::<CommandType, FrameFault>(FrameFault::MalformedFrame),
{
}

} // verus!
