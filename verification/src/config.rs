//! What the two sides of the tunnel are configured with.

use vstd::prelude::*;
use vstd::string::*;
use crate::relay::FaultPolicy;

verus! {

/// Configuration of the operator's side.
#[derive(Clone, Debug, PartialEq, Eq)]
pub struct EntryConfig {
    /// Address of the coordinator.
    pub url: String,
    /// The device to ask for, if any.
    pub ev3: Option<String>,
    /// What to do with a frame whose framing is at fault.
    pub fault_policy: FaultPolicy,
    /// Seconds to wait for a reply before the wait is given up as a fault of
    /// the transport; `None` waits without limit.
    pub reply_budget_secs: Option<u64>,
}

/// One brick on the device's side, by its Bluetooth address and name.
#[derive(Clone, Debug, PartialEq, Eq)]
pub struct EV3Connection {
    /// The upper 16 bits of the address.
    pub nap: u16,
    /// The lower 32 bits of the address.
    pub sap: u32,
    pub name: String,
}

/// Configuration of the device's side.
#[derive(Clone, Debug, PartialEq, Eq)]
pub struct ExitConfig {
    /// Address of the coordinator.
    pub url: String,
    /// The bricks to serve, one session each.
    pub ev3s: Vec<EV3Connection>,
    /// What to do with a frame whose framing is at fault.
    pub fault_policy: FaultPolicy,
    /// Seconds to wait for a reply before the wait is given up as a fault of
    /// the transport; `None` waits without limit.
    pub reply_budget_secs: Option<u64>,
}

impl Default for EntryConfig {
    /// A coordinator on this machine and no preferred device; a faulty frame
    /// ends the session, and a reply is waited for without limit.
    fn default() -> (r: EntryConfig)
        ensures
            r.url@ == "localhost:9000/ev3c"@,
            r.ev3 is None,
            r.fault_policy == FaultPolicy::Terminate,
            r.reply_budget_secs is None,
    {
        EntryConfig {
            url: String::from_str("localhost:9000/ev3c"),
            ev3: None,
            fault_policy: FaultPolicy::Terminate,
            reply_budget_secs: None,
        }
    }
}

impl Default for EV3Connection {
    fn default() -> (r: EV3Connection)
        ensures
            r.nap == 22,
            r.sap == 1_234_567_890,
            r.name@ == "EV3"@,
    {
        EV3Connection { nap: 22, sap: 1_234_567_890, name: String::from_str("EV3") }
    }
}

impl Default for ExitConfig {
    /// A coordinator on this machine and one brick with the default address;
    /// a faulty frame ends the session, and a reply is waited for without
    /// limit.
    fn default() -> (r: ExitConfig)
        ensures
            r.url@ == "localhost:8800/ev3c"@,
            r.fault_policy == FaultPolicy::Terminate,
            r.reply_budget_secs is None,
            r.ev3s@.len() == 1,
            r.ev3s@[0].nap == 22,
            r.ev3s@[0].sap == 1_234_567_890,
            r.ev3s@[0].name@ == "EV3"@,
    {
        let mut ev3s: Vec<EV3Connection> = Vec::new();
        ev3s.push(EV3Connection::default());
        ExitConfig {
            url: String::from_str("localhost:8800/ev3c"),
            ev3s,
            fault_policy: FaultPolicy::Terminate,
            reply_budget_secs: None,
        }
    }
}

impl EntryConfig {
    /// Notes the device that the coordinator has granted, so that it is asked
    /// for next time.
    pub fn record_grant(&mut self, device: String)
        ensures
            final(self).ev3 == Some(device),
            final(self).url == old(self).url,
            final(self).fault_policy == old(self).fault_policy,
            final(self).reply_budget_secs == old(self).reply_budget_secs,
    {
        self.ev3 = Some(device);
    }
}

} // verus!
