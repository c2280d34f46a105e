//! The relay engine: one request at a time from a source to a destination,
//! and the reply, where one is due, back again.
//!
//! The engine decides and the program acts. `step` takes the engine's state
//! and what has just happened, and returns the next state and what to do. The
//! source is whoever sends commands (the control software on one side of the
//! tunnel, the tunnel itself on the other), the destination whoever answers
//! them.

use vstd::prelude::*;
use crate::frame::{
    inspect,
    inspect_spec,
    reply_expected,
    validate,
    validate_spec,
    well_formed,
    CommandType,
    FrameFault,
};

verus! {

/// What to do with a frame whose framing is at fault.
#[derive(Clone, Copy, Debug, PartialEq, Eq, Structural)]
pub enum FaultPolicy {
    /// Drop the frame and go on with the next one.
    Discard,
    /// End the session.
    Terminate,
}

/// Where the engine stands.
#[derive(Clone, Copy, Debug, PartialEq, Eq, Structural)]
pub enum RelayState {
    /// No request is in flight; the next one may be read from the source.
    Idle,
    /// A request of this type is being written to the destination.
    Forwarding(CommandType),
    /// A request has been written and its reply is due from the destination.
    AwaitingReply,
}

/// What the engine is waiting for in a state.
#[derive(Clone, Copy, Debug, PartialEq, Eq, Structural)]
pub enum Awaited {
    /// The next request, from the source.
    Request,
    /// Word that the request has been written to the destination.
    RequestSent,
    /// The reply, from the destination.
    Reply,
}

/// What has just happened.
#[derive(Clone, Debug, PartialEq, Eq)]
pub enum RelayEvent {
    /// A frame was read from the source.
    RequestRead(Vec<u8>),
    /// The request was written to the destination.
    RequestSent,
    /// A frame was read from the destination.
    ReplyRead(Vec<u8>),
    /// A keep-alive arrived on the message transport, with its payload.
    KeepAlive(Vec<u8>),
    /// A message arrived that is neither a frame nor a keep-alive.
    Unrecognized,
    /// The source was lost and has been established anew.
    SourceReconnected,
}

/// What the program is to do next.
#[derive(Clone, Debug, PartialEq, Eq)]
pub enum RelayAction {
    /// Write these bytes to the destination, then report `RequestSent`.
    ForwardRequest(Vec<u8>),
    /// Read from the destination.
    AwaitReply,
    /// Read the next request from the source.
    AwaitRequest,
    /// Write these bytes to the source, then read the next request.
    DeliverReply(Vec<u8>),
    /// Answer the keep-alive with the same payload and carry on.
    AnswerKeepAlive(Vec<u8>),
    /// Drop a faulty frame of the given length and carry on.
    Discard(FrameFault, usize),
    /// End the session over a faulty frame of the given length.
    Terminate(FrameFault, usize),
    /// Nothing to do: carry on as the state says.
    Ignore,
}

/// The mathematical content of a `RelayEvent`.
pub ghost enum EventModel {
    RequestRead(Seq<u8>),
    RequestSent,
    ReplyRead(Seq<u8>),
    KeepAlive(Seq<u8>),
    Unrecognized,
    SourceReconnected,
}

/// The mathematical content of a `RelayAction`.
pub ghost enum OutputModel {
    ForwardRequest(Seq<u8>),
    AwaitReply,
    AwaitRequest,
    DeliverReply(Seq<u8>),
    AnswerKeepAlive(Seq<u8>),
    Discard(FrameFault, usize),
    Terminate(FrameFault, usize),
    Ignore,
}

impl View for RelayEvent {
    type V = EventModel;

    open spec fn view(&self) -> EventModel {
        match *self {
            RelayEvent::RequestRead(frame) => EventModel::RequestRead(frame@),
            RelayEvent::RequestSent => EventModel::RequestSent,
            RelayEvent::ReplyRead(frame) => EventModel::ReplyRead(frame@),
            RelayEvent::KeepAlive(payload) => EventModel::KeepAlive(payload@),
            RelayEvent::Unrecognized => EventModel::Unrecognized,
            RelayEvent::SourceReconnected => EventModel::SourceReconnected,
        }
    }
}

impl View for RelayAction {
    type V = OutputModel;

    open spec fn view(&self) -> OutputModel {
        match *self {
            RelayAction::ForwardRequest(frame) => OutputModel::ForwardRequest(frame@),
            RelayAction::AwaitReply => OutputModel::AwaitReply,
            RelayAction::AwaitRequest => OutputModel::AwaitRequest,
            RelayAction::DeliverReply(frame) => OutputModel::DeliverReply(frame@),
            RelayAction::AnswerKeepAlive(payload) => OutputModel::AnswerKeepAlive(payload@),
            RelayAction::Discard(fault, len) => OutputModel::Discard(fault, len),
            RelayAction::Terminate(fault, len) => OutputModel::Terminate(fault, len),
            RelayAction::Ignore => OutputModel::Ignore,
        }
    }
}

/// What the policy makes of a faulty frame of `len` bytes. The state stays as
/// it was either way: a dropped frame changes nothing, and a session that is
/// ended takes no further step.
pub open spec fn fault_outcome(
    state: RelayState,
    policy: FaultPolicy,
    fault: FrameFault,
    len: usize,
) -> (RelayState, OutputModel) {
    match policy {
        FaultPolicy::Discard => (state, OutputModel::Discard(fault, len)),
        FaultPolicy::Terminate => (state, OutputModel::Terminate(fault, len)),
    }
}

/// The state that follows once a request of this type has been written.
pub open spec fn state_after_sending(kind: CommandType) -> (RelayState, OutputModel) {
    if reply_expected(kind) {
        (RelayState::AwaitingReply, OutputModel::AwaitReply)
    } else {
        (RelayState::Idle, OutputModel::AwaitRequest)
    }
}

/// The engine's transition function.
///
/// A reconnected source always brings the engine back to `Idle`: a request
/// whose sender is gone is dropped, never sent again. A keep-alive is answered
/// in any state and changes nothing. A request is taken only in `Idle`, a
/// reply only in `AwaitingReply`; whatever else arrives is ignored.
pub open spec fn step_spec(state: RelayState, event: EventModel, policy: FaultPolicy) -> (
    RelayState,
    OutputModel,
) {
    match event {
        EventModel::SourceReconnected => (RelayState::Idle, OutputModel::AwaitRequest),
        EventModel::KeepAlive(payload) => (state, OutputModel::AnswerKeepAlive(payload)),
        EventModel::Unrecognized => (state, OutputModel::Ignore),
        EventModel::RequestRead(frame) => match state {
            RelayState::Idle => match inspect_spec(frame) {
                Ok(kind) => (RelayState::Forwarding(kind), OutputModel::ForwardRequest(frame)),
                Err(fault) => fault_outcome(state, policy, fault, frame.len() as usize),
            },
            _ => (state, OutputModel::Ignore),
        },
        EventModel::RequestSent => match state {
            RelayState::Forwarding(kind) => state_after_sending(kind),
            _ => (state, OutputModel::Ignore),
        },
        EventModel::ReplyRead(frame) => match state {
            RelayState::AwaitingReply => match validate_spec(frame) {
                Ok(_) => (RelayState::Idle, OutputModel::DeliverReply(frame)),
                Err(fault) => fault_outcome(state, policy, fault, frame.len() as usize),
            },
            _ => (state, OutputModel::Ignore),
        },
    }
}

/// The state after a run of events, taken in order.
pub open spec fn state_after(state: RelayState, events: Seq<EventModel>, policy: FaultPolicy)
    -> RelayState
    decreases events.len(),
{
    if events.len() == 0 {
        state
    } else {
        step_spec(state_after(state, events.drop_last(), policy), events.last(), policy).0
    }
}

/// Whether a request has been taken whose reply has not been delivered.
pub open spec fn in_flight(state: RelayState) -> bool {
    !(state is Idle)
}

impl RelayState {
    /// What the program is to wait for when the last action left it open:
    /// after a keep-alive, a dropped frame or an ignored event.
    pub fn awaits(self) -> (r: Awaited)
        ensures
            r == match self {
                RelayState::Idle => Awaited::Request,
                RelayState::Forwarding(_) => Awaited::RequestSent,
                RelayState::AwaitingReply => Awaited::Reply,
            },
    {
        match self {
            RelayState::Idle => Awaited::Request,
            RelayState::Forwarding(_) => Awaited::RequestSent,
            RelayState::AwaitingReply => Awaited::Reply,
        }
    }
}

fn apply_policy(state: RelayState, policy: FaultPolicy, fault: FrameFault, len: usize) -> (r: (
    RelayState,
    RelayAction,
))
    ensures
        (r.0, r.1@) == fault_outcome(state, policy, fault, len),
{
    match policy {
        FaultPolicy::Discard => (state, RelayAction::Discard(fault, len)),
        FaultPolicy::Terminate => (state, RelayAction::Terminate(fault, len)),
    }
}

/// Takes one event and returns the next state and what to do.
pub fn step(state: RelayState, event: RelayEvent, policy: FaultPolicy) -> (r: (
    RelayState,
    RelayAction,
))
    ensures
        (r.0, r.1@) == step_spec(state, event@, policy),
{
    match event {
        RelayEvent::SourceReconnected => (RelayState::Idle, RelayAction::AwaitRequest),
        RelayEvent::KeepAlive(payload) => (state, RelayAction::AnswerKeepAlive(payload)),
        RelayEvent::Unrecognized => (state, RelayAction::Ignore),
        RelayEvent::RequestRead(frame) => match state {
            RelayState::Idle => match inspect(frame.as_slice()) {
                Ok(kind) => (RelayState::Forwarding(kind), RelayAction::ForwardRequest(frame)),
                Err(fault) => apply_policy(state, policy, fault, frame.len()),
            },
            _ => (state, RelayAction::Ignore),
        },
        RelayEvent::RequestSent => match state {
            RelayState::Forwarding(kind) => if kind.expects_reply() {
                (RelayState::AwaitingReply, RelayAction::AwaitReply)
            } else {
                (RelayState::Idle, RelayAction::AwaitRequest)
            },
            _ => (state, RelayAction::Ignore),
        },
        RelayEvent::ReplyRead(frame) => match state {
            RelayState::AwaitingReply => match validate(frame.as_slice()) {
                Ok(_) => (RelayState::Idle, RelayAction::DeliverReply(frame)),
                Err(fault) => apply_policy(state, policy, fault, frame.len()),
            },
            _ => (state, RelayAction::Ignore),
        },
    }
}

/// A well-formed request with a known tag, read while the engine is idle, is
/// handed to the destination byte for byte as it came.
pub proof fn lemma_request_forwarded_unchanged(frame: Seq<u8>, policy: FaultPolicy)
    requires
        well_formed(frame),
        inspect_spec(frame) is Ok,
    ensures
        step_spec(RelayState::Idle, EventModel::RequestRead(frame), policy).1
            == OutputModel::ForwardRequest(frame),
        step_spec(RelayState::Idle, EventModel::RequestRead(frame), policy).0
            == RelayState::Forwarding(inspect_spec(frame)->Ok_0),
{
}

/// Whatever the engine forwards or delivers is the frame that it was given,
/// and that frame is well formed.
pub proof fn lemma_frames_pass_unchanged(state: RelayState, event: EventModel, policy: FaultPolicy)
    ensures
        match step_spec(state, event, policy).1 {
            OutputModel::ForwardRequest(bytes) => event == EventModel::RequestRead(bytes)
                && well_formed(bytes) && state is Idle,
            OutputModel::DeliverReply(bytes) => event == EventModel::ReplyRead(bytes)
                && well_formed(bytes) && state is AwaitingReply,
            _ => true,
        },
{
}

/// A request that needs no reply never blocks: once it is written the engine
/// is idle again and asks for the next request, with no read in between.
pub proof fn lemma_no_reply_never_blocks(frame: Seq<u8>, policy: FaultPolicy)
    requires
        inspect_spec(frame) is Ok,
        !reply_expected(inspect_spec(frame)->Ok_0),
    ensures
        step_spec(
            step_spec(RelayState::Idle, EventModel::RequestRead(frame), policy).0,
            EventModel::RequestSent,
            policy,
        ) == (RelayState::Idle, OutputModel::AwaitRequest),
        state_after(
            RelayState::Idle,
            seq![EventModel::RequestRead(frame), EventModel::RequestSent],
            policy,
        ) == RelayState::Idle,
{
    lemma_run_of_two(
        RelayState::Idle,
        EventModel::RequestRead(frame),
        EventModel::RequestSent,
        policy,
    );
}

/// A request that needs a reply makes the engine wait once it is written, and
/// the wait lasts until a well-formed reply arrives, which is delivered byte
/// for byte as it came.
pub proof fn lemma_reply_is_awaited(frame: Seq<u8>, reply: Seq<u8>, policy: FaultPolicy)
    requires
        inspect_spec(frame) is Ok,
        reply_expected(inspect_spec(frame)->Ok_0),
        well_formed(reply),
    ensures
        state_after(
            RelayState::Idle,
            seq![EventModel::RequestRead(frame), EventModel::RequestSent],
            policy,
        ) == RelayState::AwaitingReply,
        step_spec(RelayState::AwaitingReply, EventModel::ReplyRead(reply), policy) == (
            RelayState::Idle,
            OutputModel::DeliverReply(reply),
        ),
{
    lemma_run_of_two(
        RelayState::Idle,
        EventModel::RequestRead(frame),
        EventModel::RequestSent,
        policy,
    );
}

/// A run of two events is one step after the other.
pub proof fn lemma_run_of_two(
    state: RelayState,
    first: EventModel,
    second: EventModel,
    policy: FaultPolicy,
)
    ensures
        state_after(state, seq![first, second], policy) == step_spec(
            step_spec(state, first, policy).0,
            second,
            policy,
        ).0,
{
    let run = seq![first, second];
    assert(run.drop_last() =~= seq![first]);
    assert(seq![first].drop_last() =~= Seq::<EventModel>::empty());
    assert(state_after(state, Seq::<EventModel>::empty(), policy) == state);
    assert(state_after(state, seq![first], policy) == step_spec(state, first, policy).0);
    assert(run.last() == second);
}

/// While a request is in flight no other is accepted: the engine forwards a
/// request only from `Idle`.
pub proof fn lemma_one_request_in_flight(state: RelayState, event: EventModel, policy: FaultPolicy)
    requires
        in_flight(state),
    ensures
        !(step_spec(state, event, policy).1 is ForwardRequest),
{
}

/// The wait for a reply ends in one of two ways only: a well-formed reply
/// arrives and is delivered, which happens in the very step that ends the
/// wait, or the source was lost and the request is dropped.
pub proof fn lemma_wait_ends_with_delivery(event: EventModel, policy: FaultPolicy)
    requires
        step_spec(RelayState::AwaitingReply, event, policy).0 != RelayState::AwaitingReply,
    ensures
        step_spec(RelayState::AwaitingReply, event, policy).0 == RelayState::Idle,
        event is SourceReconnected || (event is ReplyRead && step_spec(
            RelayState::AwaitingReply,
            event,
            policy,
        ).1 == OutputModel::DeliverReply(event->ReplyRead_0)),
{
}

/// A reply is delivered only to end a wait: the step that delivers one starts
/// in `AwaitingReply` and ends in `Idle`, so each wait sees exactly one.
pub proof fn lemma_delivery_ends_wait(state: RelayState, event: EventModel, policy: FaultPolicy)
    requires
        step_spec(state, event, policy).1 is DeliverReply,
    ensures
        state == RelayState::AwaitingReply,
        step_spec(state, event, policy).0 == RelayState::Idle,
{
}

/// Whether the engine owes the source a reply: a request that needs one has
/// been taken and its reply has not been delivered.
pub open spec fn owes_reply(state: RelayState) -> bool {
    match state {
        RelayState::Idle => false,
        RelayState::Forwarding(kind) => reply_expected(kind),
        RelayState::AwaitingReply => true,
    }
}

/// How many requests that need a reply the engine takes over a run.
pub open spec fn requests_taken(state: RelayState, events: Seq<EventModel>, policy: FaultPolicy)
    -> nat
    decreases events.len(),
{
    if events.len() == 0 {
        0
    } else {
        let before = state_after(state, events.drop_last(), policy);
        let taken = step_spec(before, events.last(), policy).1 is ForwardRequest && owes_reply(
            step_spec(before, events.last(), policy).0,
        );
        requests_taken(state, events.drop_last(), policy) + if taken {
            1nat
        } else {
            0nat
        }
    }
}

/// How many replies the engine delivers over a run.
pub open spec fn replies_delivered(state: RelayState, events: Seq<EventModel>, policy: FaultPolicy)
    -> nat
    decreases events.len(),
{
    if events.len() == 0 {
        0
    } else {
        let before = state_after(state, events.drop_last(), policy);
        replies_delivered(state, events.drop_last(), policy) + if step_spec(
            before,
            events.last(),
            policy,
        ).1 is DeliverReply {
            1nat
        } else {
            0nat
        }
    }
}

/// How many requests lose their sender over a run while a reply is owed.
pub open spec fn requests_dropped(state: RelayState, events: Seq<EventModel>, policy: FaultPolicy)
    -> nat
    decreases events.len(),
{
    if events.len() == 0 {
        0
    } else {
        let before = state_after(state, events.drop_last(), policy);
        requests_dropped(state, events.drop_last(), policy) + if events.last() is SourceReconnected
            && owes_reply(before) {
            1nat
        } else {
            0nat
        }
    }
}

/// Over any run of events from `Idle`, every request that needs a reply is
/// matched by exactly one delivered reply, unless its sender was lost or the
/// reply is still owed at the end of the run, and at most one reply is owed at
/// any time.
pub proof fn lemma_each_request_gets_one_reply(events: Seq<EventModel>, policy: FaultPolicy)
    ensures
        requests_taken(RelayState::Idle, events, policy) == replies_delivered(
            RelayState::Idle,
            events,
            policy,
        ) + requests_dropped(RelayState::Idle, events, policy) + if owes_reply(
            state_after(RelayState::Idle, events, policy),
        ) {
            1nat
        } else {
            0nat
        },
    decreases events.len(),
{
    if events.len() > 0 {
        lemma_each_request_gets_one_reply(events.drop_last(), policy);
    }
}

} // verus!
