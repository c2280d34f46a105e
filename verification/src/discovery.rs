//! Discovery emulation: what makes the control software on the local network
//! believe that a brick is attached.
//!
//! The emulator broadcasts an advertisement, listens for any datagram in
//! answer, and goes on broadcasting whether or not one came. Once the control
//! software connects, it sends a first line and is given a fixed token.

use vstd::prelude::*;
use vstd::string::*;
use crate::text::{decimal, decimal_text};

verus! {

/// Seconds to listen for an answer after a broadcast.
pub const LISTEN_TIMEOUT_SECS: u64 = 10;

/// Seconds to rest before the next broadcast.
pub const BROADCAST_PERIOD_SECS: u64 = 5;

/// The UDP port that the control software listens on for advertisements.
pub const BROADCAST_PORT: u16 = 3015;

/// The advertisement of one brick.
#[derive(Clone, Debug, PartialEq, Eq)]
pub struct Labview {
    pub serial: String,
    /// The local TCP port on which the control software may connect.
    pub port: u16,
    pub name: String,
    pub protocol: String,
}

/// The text of an advertisement: four lines, each ended by `\r\n`.
pub open spec fn payload_text(
    serial: Seq<char>,
    port: u16,
    name: Seq<char>,
    protocol: Seq<char>,
) -> Seq<char> {
    "Serial-Number: "@ + serial + "\r\nPort: "@ + decimal(port as nat) + "\r\nName: "@ + name
        + "\r\nProtocol: "@ + protocol + "\r\n"@
}

impl Default for Labview {
    /// The advertisement of a brick named `EV3` on port 5555.
    fn default() -> (r: Labview)
        ensures
            r.serial@ == "001612345678"@,
            r.port == 5555,
            r.name@ == "EV3"@,
            r.protocol@ == "EV3"@,
    {
        Labview {
            serial: String::from_str("001612345678"),
            port: 5555,
            name: String::from_str("EV3"),
            protocol: String::from_str("EV3"),
        }
    }
}

impl Labview {
    /// The datagram to broadcast.
    pub fn payload(&self) -> (r: String)
        ensures
            r@ == payload_text(self.serial@, self.port, self.name@, self.protocol@),
    {
        let mut text = String::from_str("Serial-Number: ");
        text.append(self.serial.as_str());
        text.append("\r\nPort: ");
        let port = decimal_text(self.port);
        text.append(port.as_str());
        text.append("\r\nName: ");
        text.append(self.name.as_str());
        text.append("\r\nProtocol: ");
        text.append(self.protocol.as_str());
        text.append("\r\n");
        text
    }

    /// The token that answers the control software's first line, whatever the
    /// line says.
    pub fn accept_token() -> (r: &'static str)
        ensures
            r@ == "Accept:EV340\r\n\r\n"@,
    {
        "Accept:EV340\r\n\r\n"
    }
}

/// What has just happened to the emulator.
#[derive(Clone, Copy, Debug, PartialEq, Eq, Structural)]
pub enum DiscoveryEvent {
    /// The emulator has started.
    Started,
    /// The advertisement went out.
    BroadcastSent,
    /// The advertisement could not be sent.
    BroadcastFailed,
    /// A datagram came in answer.
    Acknowledged,
    /// No datagram came within the time allowed.
    TimedOut,
    /// The operator has been told of the answer.
    Reported,
    /// The rest is over.
    Paused,
    /// The program asked the emulator to stop.
    Cancelled,
}

/// What the emulator is to do next.
#[derive(Clone, Copy, Debug, PartialEq, Eq, Structural)]
pub enum DiscoveryAction {
    /// Send the advertisement.
    Broadcast,
    /// Listen for a datagram for so many seconds.
    Listen(u64),
    /// Tell the operator that the control software has answered.
    Report,
    /// Rest for so many seconds.
    Pause(u64),
    /// Stop: release the socket and return.
    Stop,
}

/// The action that follows an event. A silent listen is no fault: the
/// advertisement goes out again at once. An answer is reported, and after a
/// rest the advertisement goes out again.
pub open spec fn next_action(event: DiscoveryEvent) -> DiscoveryAction {
    match event {
        DiscoveryEvent::Started => DiscoveryAction::Broadcast,
        DiscoveryEvent::BroadcastSent => DiscoveryAction::Listen(LISTEN_TIMEOUT_SECS),
        DiscoveryEvent::BroadcastFailed => DiscoveryAction::Pause(BROADCAST_PERIOD_SECS),
        DiscoveryEvent::Acknowledged => DiscoveryAction::Report,
        DiscoveryEvent::TimedOut => DiscoveryAction::Broadcast,
        DiscoveryEvent::Reported => DiscoveryAction::Pause(BROADCAST_PERIOD_SECS),
        DiscoveryEvent::Paused => DiscoveryAction::Broadcast,
        DiscoveryEvent::Cancelled => DiscoveryAction::Stop,
    }
}

/// The event by which the program reports that an action is done, where the
/// action has one outcome only.
pub open spec fn completion(action: DiscoveryAction) -> Option<DiscoveryEvent> {
    match action {
        DiscoveryAction::Report => Some(DiscoveryEvent::Reported),
        DiscoveryAction::Pause(_) => Some(DiscoveryEvent::Paused),
        _ => None,
    }
}

/// Decides what the emulator does next. The emulator never stops by itself:
/// it runs until the program cancels it.
pub fn discovery_step(event: DiscoveryEvent) -> (action: DiscoveryAction)
    ensures
        action == next_action(event),
{
    match event {
        DiscoveryEvent::Started => DiscoveryAction::Broadcast,
        DiscoveryEvent::BroadcastSent => DiscoveryAction::Listen(LISTEN_TIMEOUT_SECS),
        DiscoveryEvent::BroadcastFailed => DiscoveryAction::Pause(BROADCAST_PERIOD_SECS),
        DiscoveryEvent::Acknowledged => DiscoveryAction::Report,
        DiscoveryEvent::TimedOut => DiscoveryAction::Broadcast,
        DiscoveryEvent::Reported => DiscoveryAction::Pause(BROADCAST_PERIOD_SECS),
        DiscoveryEvent::Paused => DiscoveryAction::Broadcast,
        DiscoveryEvent::Cancelled => DiscoveryAction::Stop,
    }
}

/// The emulator stops when it is cancelled and at no other time: neither an
/// answer, nor silence, nor a failed broadcast ends it.
pub proof fn lemma_stops_only_when_cancelled(event: DiscoveryEvent)
    ensures
        next_action(event) is Stop <==> event is Cancelled,
{
}

/// An answer does not end the emulation: it is reported, the emulator rests
/// for the broadcast period, and the advertisement goes out again.
pub proof fn lemma_broadcast_resumes_after_answer()
    ensures
        next_action(DiscoveryEvent::Acknowledged) == DiscoveryAction::Report,
        completion(DiscoveryAction::Report) == Some(DiscoveryEvent::Reported),
        next_action(DiscoveryEvent::Reported) == DiscoveryAction::Pause(BROADCAST_PERIOD_SECS),
        completion(DiscoveryAction::Pause(BROADCAST_PERIOD_SECS)) == Some(DiscoveryEvent::Paused),
        next_action(DiscoveryEvent::Paused) == DiscoveryAction::Broadcast,
        next_action(DiscoveryEvent::TimedOut) == DiscoveryAction::Broadcast,
{
}

} // verus!
