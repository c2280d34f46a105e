//! Session management: the life of one device's session, and the registry
//! that keeps the sessions of all configured devices apart.
//!
//! A session links its device, joins the tunnel, and relays until the tunnel
//! closes, a fatal fault occurs or it is cancelled. Whatever happens to one
//! session leaves every other as it was.

use vstd::prelude::*;

verus! {

/// Where one device's session stands.
#[derive(Clone, Copy, Debug, PartialEq, Eq, Structural)]
pub enum SessionPhase {
    /// The link to the device is being established.
    LinkingDevice,
    /// The remote transport is being established and control settled.
    JoiningTunnel,
    /// The relay engine is running.
    Relaying,
    /// The session is over; its transports and its link are closed.
    Ended,
}

/// What has happened to a session.
#[derive(Clone, Copy, Debug, PartialEq, Eq, Structural)]
pub enum SessionEvent {
    /// The device link stands.
    DeviceLinked,
    /// The remote transport stands and control is settled.
    TunnelJoined,
    /// The local transport failed: it could not be bound or accepted, or it
    /// was reset.
    LocalTransportLost,
    /// The remote transport closed.
    TransportClosed,
    /// Any other fatal fault: the device link failed, the coordinator denied
    /// the session, or a faulty frame ended it.
    Fatal,
    /// The program asked the session to stop.
    Cancelled,
}

/// What the program is to do for a session.
#[derive(Clone, Copy, Debug, PartialEq, Eq, Structural)]
pub enum SessionAction {
    /// Establish the remote transport and settle control.
    JoinTunnel,
    /// Drive the relay engine.
    Relay,
    /// Establish the local transport anew, tell the relay engine that its
    /// source was reconnected, and carry on.
    ReconnectLocal,
    /// Close both transports and the device link.
    Close,
    /// Nothing to do.
    Ignore,
}

/// The life of a session. `reconnect` says whether a lost local transport is
/// established anew; where it is not, losing it ends the session like any
/// other fault. An ended session stays ended.
pub open spec fn session_step_spec(phase: SessionPhase, event: SessionEvent, reconnect: bool) -> (
    SessionPhase,
    SessionAction,
) {
    if phase is Ended {
        (SessionPhase::Ended, SessionAction::Ignore)
    } else {
        match event {
            SessionEvent::DeviceLinked => if phase is LinkingDevice {
                (SessionPhase::JoiningTunnel, SessionAction::JoinTunnel)
            } else {
                (phase, SessionAction::Ignore)
            },
            SessionEvent::TunnelJoined => if phase is JoiningTunnel {
                (SessionPhase::Relaying, SessionAction::Relay)
            } else {
                (phase, SessionAction::Ignore)
            },
            SessionEvent::LocalTransportLost => if reconnect {
                (phase, SessionAction::ReconnectLocal)
            } else {
                (SessionPhase::Ended, SessionAction::Close)
            },
            _ => (SessionPhase::Ended, SessionAction::Close),
        }
    }
}

/// Takes one event of a session and returns its next phase and what to do.
pub fn session_step(phase: SessionPhase, event: SessionEvent, reconnect: bool) -> (r: (
    SessionPhase,
    SessionAction,
))
    ensures
        r == session_step_spec(phase, event, reconnect),
{
    match phase {
        SessionPhase::Ended => (SessionPhase::Ended, SessionAction::Ignore),
        _ => match event {
            SessionEvent::DeviceLinked => match phase {
                SessionPhase::LinkingDevice => (
                    SessionPhase::JoiningTunnel,
                    SessionAction::JoinTunnel,
                ),
                _ => (phase, SessionAction::Ignore),
            },
            SessionEvent::TunnelJoined => match phase {
                SessionPhase::JoiningTunnel => (SessionPhase::Relaying, SessionAction::Relay),
                _ => (phase, SessionAction::Ignore),
            },
            SessionEvent::LocalTransportLost => if reconnect {
                (phase, SessionAction::ReconnectLocal)
            } else {
                (SessionPhase::Ended, SessionAction::Close)
            },
            _ => (SessionPhase::Ended, SessionAction::Close),
        },
    }
}

/// The sessions of all configured devices, each under the index of its
/// device.
#[derive(Clone, Debug, PartialEq, Eq)]
pub struct SessionRegistry {
    pub phases: Vec<SessionPhase>,
    /// Whether a lost local transport is established anew.
    pub reconnect: bool,
}

impl SessionRegistry {
    /// A registry of `devices` sessions, each about to link its device.
    pub fn new(devices: usize, reconnect: bool) -> (r: SessionRegistry)
        ensures
            r.reconnect == reconnect,
            r.phases@ == Seq::new(devices as nat, |i: int| SessionPhase::LinkingDevice),
    {
        let mut phases: Vec<SessionPhase> = Vec::new();
        let mut i: usize = 0;
        while i < devices
            invariant
                i <= devices,
                phases@ == Seq::new(i as nat, |j: int| SessionPhase::LinkingDevice),
            decreases devices - i,
        {
            phases.push(SessionPhase::LinkingDevice);
            i = i + 1;
            assert(phases@ =~= Seq::new(i as nat, |j: int| SessionPhase::LinkingDevice));
        }
        SessionRegistry { phases, reconnect }
    }

    /// The phase of a device's session; `None` for an index that names no
    /// device.
    pub fn phase(&self, device: usize) -> (r: Option<SessionPhase>)
        ensures
            r == if device < self.phases@.len() {
                Some(self.phases@[device as int])
            } else {
                None
            },
    {
        if device < self.phases.len() {
            Some(self.phases[device])
        } else {
            None
        }
    }

    /// Takes one event of one device's session. That session moves as
    /// `session_step` says; no other session changes. An index that names no
    /// device changes nothing and returns `None`.
    pub fn handle(&mut self, device: usize, event: SessionEvent) -> (r: Option<SessionAction>)
        ensures
            final(self).reconnect == old(self).reconnect,
            device >= old(self).phases@.len() ==> r is None && final(self).phases@ == old(
                self,
            ).phases@,
            device < old(self).phases@.len() ==> {
                let next = session_step_spec(
                    old(self).phases@[device as int],
                    event,
                    old(self).reconnect,
                );
                &&& r == Some(next.1)
                &&& final(self).phases@ == old(self).phases@.update(device as int, next.0)
            },
            final(self).phases@.len() == old(self).phases@.len(),
            forall|other: int|
                0 <= other < old(self).phases@.len() && other != device ==> final(self).phases@[other]
                    == old(self).phases@[other],
    {
        if device < self.phases.len() {
            let (next, action) = session_step(self.phases[device], event, self.reconnect);
            self.phases.set(device, next);
            Some(action)
        } else {
            None
        }
    }

    /// Whether every session has ended.
    pub fn all_ended(&self) -> (r: bool)
        ensures
            r == forall|i: int| 0 <= i < self.phases@.len() ==> self.phases@[i] is Ended,
    {
        let mut i: usize = 0;
        while i < self.phases.len()
            invariant
                i <= self.phases@.len(),
                forall|j: int| 0 <= j < i ==> self.phases@[j] is Ended,
            decreases self.phases@.len() - i,
        {
            match self.phases[i] {
                SessionPhase::Ended => {},
                _ => {
                    return false;
                },
            }
            i = i + 1;
        }
        true
    }
}

/// An ended session stays ended, and asks for nothing more.
pub proof fn lemma_ended_is_final(event: SessionEvent, reconnect: bool)
    ensures
        session_step_spec(SessionPhase::Ended, event, reconnect) == (
            SessionPhase::Ended,
            SessionAction::Ignore,
        ),
{
}

/// A session that ends is told to close its transports and its link, and a
/// cancelled session always ends.
pub proof fn lemma_ending_closes(phase: SessionPhase, event: SessionEvent, reconnect: bool)
    requires
        !(phase is Ended),
    ensures
        session_step_spec(phase, event, reconnect).0 is Ended ==> session_step_spec(
            phase,
            event,
            reconnect,
        ).1 == SessionAction::Close,
        event is Cancelled ==> session_step_spec(phase, event, reconnect).0 is Ended,
{
}

/// The relay runs only for a session that has linked its device and then
/// joined the tunnel: the phases are passed in that order.
pub proof fn lemma_relay_follows_link_and_join(
    phase: SessionPhase,
    event: SessionEvent,
    reconnect: bool,
)
    requires
        session_step_spec(phase, event, reconnect).1 == SessionAction::Relay,
    ensures
        phase is JoiningTunnel,
        event is TunnelJoined,
        session_step_spec(phase, event, reconnect).0 is Relaying,
{
}

} // verus!
