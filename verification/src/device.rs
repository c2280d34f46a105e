//! The device link's one decision: whether a frame written to the device is
//! followed by a read.

use vstd::prelude::*;
use crate::frame::{classify, classify_spec, reply_expected, FrameFault};

verus! {

/// How a frame is sent to the device.
#[derive(Clone, Copy, Debug, PartialEq, Eq, Structural)]
pub enum SendPlan {
    /// Write the frame; the device will not answer.
    WriteOnly,
    /// Write the frame, then read exactly one reply.
    WriteThenRead,
}

/// What `plan_send` returns.
pub open spec fn plan_send_spec(frame: Seq<u8>) -> Result<SendPlan, FrameFault> {
    match classify_spec(frame) {
        Ok(kind) => if reply_expected(kind) {
            Ok(SendPlan::WriteThenRead)
        } else {
            Ok(SendPlan::WriteOnly)
        },
        Err(fault) => Err(fault),
    }
}

/// What a send returns to its caller: nothing for a frame that is only
/// written, else the bytes that were read.
pub open spec fn send_result_spec(plan: SendPlan, received: Seq<u8>) -> Seq<u8> {
    match plan {
        SendPlan::WriteOnly => Seq::<u8>::empty(),
        SendPlan::WriteThenRead => received,
    }
}

/// Decides from a frame's tag how it is sent. A frame that cannot be
/// classified is not sent at all.
pub fn plan_send(frame: &[u8]) -> (r: Result<SendPlan, FrameFault>)
    ensures
        r == plan_send_spec(frame@),
{
    match classify(frame) {
        Ok(kind) => if kind.expects_reply() {
            Ok(SendPlan::WriteThenRead)
        } else {
            Ok(SendPlan::WriteOnly)
        },
        Err(fault) => Err(fault),
    }
}

impl SendPlan {
    /// Whether the link reads from the device after writing.
    pub fn reads_reply(self) -> (r: bool)
        ensures
            r == (self is WriteThenRead),
    {
        match self {
            SendPlan::WriteOnly => false,
            SendPlan::WriteThenRead => true,
        }
    }

    /// The result of the send: empty where nothing was to be read, else the
    /// bytes read from the device.
    pub fn result(self, received: Vec<u8>) -> (r: Vec<u8>)
        ensures
            r@ == send_result_spec(self, received@),
    {
        match self {
            SendPlan::WriteOnly => Vec::new(),
            SendPlan::WriteThenRead => received,
        }
    }
}

} // verus!
