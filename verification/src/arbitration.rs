//! Control arbitration: the exchange with the remote coordinator by which one
//! operator at a time is given a device.
//!
//! The session asks once, optionally naming the device it would like, and then
//! follows the coordinator's messages. It comes to control a device only by a
//! grant; a denial of the request closes it.

use vstd::prelude::*;
use vstd::string::*;
use crate::json::{json_document, json_member, parse_json};

verus! {

/// Where a control session stands.
#[derive(Clone, Copy, Debug, PartialEq, Eq, Structural)]
pub enum SessionStatus {
    /// The request is out and no verdict has come yet.
    Requesting,
    /// Another operator has the device; a grant will follow.
    Queued,
    /// The device is ours and the relay may run.
    Controlling,
    /// The coordinator has denied the session. No message leads here, since
    /// a denial closes the session at once; a session found in this status
    /// is settled like a closed one.
    Rejected,
    /// The session is over.
    Closed,
}

/// One message from the coordinator, as the session reads it.
#[derive(Clone, Debug, PartialEq, Eq)]
pub enum CoordinatorMessage {
    /// Control of the named device is granted.
    Granted(String),
    /// The device is taken; wait for a grant.
    Queued,
    /// The request is denied, for the reason given.
    Rejected(String),
    /// A keep-alive with its payload.
    KeepAlive(Vec<u8>),
    /// Anything else.
    Other,
}

/// What the session asks of the program after a message.
#[derive(Clone, Debug, PartialEq, Eq)]
pub enum ArbitrationAction {
    /// Read the next message.
    Wait,
    /// Answer the keep-alive with the same payload, then read the next message.
    AnswerKeepAlive(Vec<u8>),
    /// Start relaying for the named device.
    StartRelay(String),
    /// Give up and tell the operator the coordinator's reason.
    Abort(String),
    /// The session has ended or is already in control: nothing to do.
    Ignore,
}

/// Why a text message could not be read.
#[derive(Clone, Copy, Debug, PartialEq, Eq, Structural)]
pub enum ArbitrationError {
    /// The text is not JSON.
    InvalidJson,
}

/// The mathematical content of a `CoordinatorMessage`.
pub ghost enum MessageModel {
    Granted(Seq<char>),
    Queued,
    Rejected(Seq<char>),
    KeepAlive(Seq<u8>),
    Other,
}

/// The mathematical content of an `ArbitrationAction`.
pub ghost enum ActionModel {
    Wait,
    AnswerKeepAlive(Seq<u8>),
    StartRelay(Seq<char>),
    Abort(Seq<char>),
    Ignore,
}

impl View for CoordinatorMessage {
    type V = MessageModel;

    open spec fn view(&self) -> MessageModel {
        match *self {
            CoordinatorMessage::Granted(id) => MessageModel::Granted(id@),
            CoordinatorMessage::Queued => MessageModel::Queued,
            CoordinatorMessage::Rejected(reason) => MessageModel::Rejected(reason@),
            CoordinatorMessage::KeepAlive(payload) => MessageModel::KeepAlive(payload@),
            CoordinatorMessage::Other => MessageModel::Other,
        }
    }
}

impl View for ArbitrationAction {
    type V = ActionModel;

    open spec fn view(&self) -> ActionModel {
        match *self {
            ArbitrationAction::Wait => ActionModel::Wait,
            ArbitrationAction::AnswerKeepAlive(payload) => ActionModel::AnswerKeepAlive(payload@),
            ArbitrationAction::StartRelay(id) => ActionModel::StartRelay(id@),
            ArbitrationAction::Abort(reason) => ActionModel::Abort(reason@),
            ArbitrationAction::Ignore => ActionModel::Ignore,
        }
    }
}

/// The text of an optional string.
pub open spec fn text_of(value: Option<String>) -> Option<Seq<char>> {
    match value {
        Some(text) => Some(text@),
        None => None,
    }
}

/// The member of a JSON document under a key, if it has one.
pub open spec fn member(members: Map<Seq<char>, Seq<char>>, key: Seq<char>) -> Option<Seq<char>> {
    if members.contains_key(key) {
        Some(members[key])
    } else {
        None
    }
}

/// The message that a coordinator's reply amounts to, given its `Control`,
/// `Rejected` and `Queue` members. A reply is meant to hold one of them; where
/// it holds several, a denial counts before a grant, and a grant before the
/// queue.
pub open spec fn verdict(
    control: Option<Seq<char>>,
    rejected: Option<Seq<char>>,
    queue: Option<Seq<char>>,
) -> MessageModel {
    if rejected is Some {
        MessageModel::Rejected(rejected->0)
    } else if control is Some {
        MessageModel::Granted(control->0)
    } else if queue is Some {
        MessageModel::Queued
    } else {
        MessageModel::Other
    }
}

/// The message that a JSON document with these members amounts to.
pub open spec fn document_verdict(members: Map<Seq<char>, Seq<char>>) -> MessageModel {
    verdict(member(members, "Control"@), member(members, "Rejected"@), member(members, "Queue"@))
}

/// The status that follows a message.
pub open spec fn next_status(status: SessionStatus, message: MessageModel) -> SessionStatus {
    match status {
        SessionStatus::Requesting => match message {
            MessageModel::Granted(_) => SessionStatus::Controlling,
            MessageModel::Queued => SessionStatus::Queued,
            MessageModel::Rejected(_) => SessionStatus::Closed,
            _ => SessionStatus::Requesting,
        },
        SessionStatus::Queued => match message {
            MessageModel::Granted(_) => SessionStatus::Controlling,
            _ => SessionStatus::Queued,
        },
        _ => status,
    }
}

/// What the session asks for when a message arrives in a status.
pub open spec fn action_for(status: SessionStatus, message: MessageModel) -> ActionModel {
    match status {
        SessionStatus::Requesting => match message {
            MessageModel::Granted(id) => ActionModel::StartRelay(id),
            MessageModel::Rejected(reason) => ActionModel::Abort(reason),
            MessageModel::KeepAlive(payload) => ActionModel::AnswerKeepAlive(payload),
            _ => ActionModel::Wait,
        },
        SessionStatus::Queued => match message {
            MessageModel::Granted(id) => ActionModel::StartRelay(id),
            MessageModel::KeepAlive(payload) => ActionModel::AnswerKeepAlive(payload),
            _ => ActionModel::Wait,
        },
        _ => ActionModel::Ignore,
    }
}

/// The device that the session prefers after a message: the one that a grant
/// names, once the grant is taken, and otherwise what it was.
pub open spec fn next_preference(
    status: SessionStatus,
    preferred: Option<Seq<char>>,
    message: MessageModel,
) -> Option<Seq<char>> {
    match message {
        MessageModel::Granted(id) => if status is Requesting || status is Queued {
            Some(id)
        } else {
            preferred
        },
        _ => preferred,
    }
}

/// The status after a run of messages, taken in order.
pub open spec fn status_after(status: SessionStatus, messages: Seq<MessageModel>) -> SessionStatus
    decreases messages.len(),
{
    if messages.len() == 0 {
        status
    } else {
        next_status(status_after(status, messages.drop_last()), messages.last())
    }
}

/// The text of the opening request: `{}`, or the preferred device under the
/// key `preferred_ev3`.
pub open spec fn request_text(preferred: Option<Seq<char>>) -> Seq<char> {
    match preferred {
        Some(id) => "{\"preferred_ev3\": \""@ + id + "\"}"@,
        None => "{}"@,
    }
}

/// The text by which the device's side announces a device to the coordinator.
pub open spec fn registration_text(name: Seq<char>) -> Seq<char> {
    "{\"id\": \""@ + name + "\"}"@
}

/// The opening request of an operator's side.
pub fn request_message(preferred: &Option<String>) -> (r: String)
    ensures
        r@ == request_text(text_of(*preferred)),
{
    match preferred {
        Some(id) => {
            let mut text = String::from_str("{\"preferred_ev3\": \"");
            text.append(id.as_str());
            text.append("\"}");
            text
        },
        None => String::from_str("{}"),
    }
}

/// The opening message of a device's side, which names the device.
pub fn registration_message(name: &str) -> (r: String)
    ensures
        r@ == registration_text(name@),
{
    let mut text = String::from_str("{\"id\": \"");
    text.append(name);
    text.append("\"}");
    text
}

/// Reads a reply from its three members, each `None` where the reply lacks it
/// or holds `null` there.
pub fn interpret_reply(
    control: Option<String>,
    rejected: Option<String>,
    queue: Option<String>,
) -> (r: CoordinatorMessage)
    ensures
        r@ == verdict(text_of(control), text_of(rejected), text_of(queue)),
{
    match rejected {
        Some(reason) => CoordinatorMessage::Rejected(reason),
        None => match control {
            Some(id) => CoordinatorMessage::Granted(id),
            None => match queue {
                Some(_) => CoordinatorMessage::Queued,
                None => CoordinatorMessage::Other,
            },
        },
    }
}

/// Reads a text message of the coordinator. A text that is not JSON is an
/// error; any JSON text is a message, `Other` where it holds none of the
/// three members.
pub fn decode_reply(text: &str) -> (r: Result<CoordinatorMessage, ArbitrationError>)
    ensures
        match json_document(text@) {
            Some(members) => r is Ok && r->Ok_0@ == document_verdict(members),
            None => r == Err::<CoordinatorMessage, ArbitrationError>(ArbitrationError::InvalidJson),
        },
{
    match parse_json(text) {
        Err(_) => Err(ArbitrationError::InvalidJson),
        Ok(value) => {
            let control = json_member(&value, "Control");
            let rejected = json_member(&value, "Rejected");
            let queue = json_member(&value, "Queue");
            Ok(interpret_reply(control, rejected, queue))
        },
    }
}

/// One operator's standing with the coordinator.
#[derive(Clone, Debug, PartialEq, Eq)]
pub struct ControlSession {
    /// The coordinator that the session talks to.
    pub peer_identity: String,
    pub status: SessionStatus,
    /// The device asked for, and after a grant the device given.
    pub preferred_device_id: Option<String>,
}

impl ControlSession {
    /// A session that is about to send its request.
    pub fn open(peer_identity: String, preferred_device_id: Option<String>) -> (r: ControlSession)
        ensures
            r.peer_identity == peer_identity,
            r.preferred_device_id == preferred_device_id,
            r.status is Requesting,
    {
        ControlSession { peer_identity, status: SessionStatus::Requesting, preferred_device_id }
    }

    /// The request that opens the exchange.
    pub fn request(&self) -> (r: String)
        ensures
            r@ == request_text(text_of(self.preferred_device_id)),
    {
        request_message(&self.preferred_device_id)
    }

    /// Whether the session has reached a status that no message changes.
    pub fn is_settled(&self) -> (r: bool)
        ensures
            r == !(self.status is Requesting || self.status is Queued),
    {
        match self.status {
            SessionStatus::Requesting => false,
            SessionStatus::Queued => false,
            _ => true,
        }
    }

    /// Takes one message of the coordinator: moves to the status that follows
    /// it, notes the device of a grant, and says what to do next.
    pub fn receive(&mut self, message: CoordinatorMessage) -> (action: ArbitrationAction)
        ensures
            final(self).status == next_status(old(self).status, message@),
            action@ == action_for(old(self).status, message@),
            final(self).peer_identity == old(self).peer_identity,
            text_of(final(self).preferred_device_id) == next_preference(
                old(self).status,
                text_of(old(self).preferred_device_id),
                message@,
            ),
    {
        match self.status {
            SessionStatus::Requesting => match message {
                CoordinatorMessage::Granted(id) => {
                    self.status = SessionStatus::Controlling;
                    self.preferred_device_id = Some(id.clone());
                    ArbitrationAction::StartRelay(id)
                },
                CoordinatorMessage::Queued => {
                    self.status = SessionStatus::Queued;
                    ArbitrationAction::Wait
                },
                CoordinatorMessage::Rejected(reason) => {
                    self.status = SessionStatus::Closed;
                    ArbitrationAction::Abort(reason)
                },
                CoordinatorMessage::KeepAlive(payload) => ArbitrationAction::AnswerKeepAlive(
                    payload,
                ),
                CoordinatorMessage::Other => ArbitrationAction::Wait,
            },
            SessionStatus::Queued => match message {
                CoordinatorMessage::Granted(id) => {
                    self.status = SessionStatus::Controlling;
                    self.preferred_device_id = Some(id.clone());
                    ArbitrationAction::StartRelay(id)
                },
                CoordinatorMessage::KeepAlive(payload) => ArbitrationAction::AnswerKeepAlive(
                    payload,
                ),
                _ => ArbitrationAction::Wait,
            },
            _ => ArbitrationAction::Ignore,
        }
    }

    /// Takes a text message of the coordinator: reads it and, where it is
    /// JSON, treats it as `receive` does. A text that is not JSON leaves the
    /// session as it was.
    pub fn receive_text(&mut self, text: &str) -> (r: Result<ArbitrationAction, ArbitrationError>)
        ensures
            final(self).peer_identity == old(self).peer_identity,
            match json_document(text@) {
                Some(members) => {
                    &&& r is Ok
                    &&& r->Ok_0@ == action_for(old(self).status, document_verdict(members))
                    &&& final(self).status == next_status(
                        old(self).status,
                        document_verdict(members),
                    )
                    &&& text_of(final(self).preferred_device_id) == next_preference(
                        old(self).status,
                        text_of(old(self).preferred_device_id),
                        document_verdict(members),
                    )
                },
                None => {
                    &&& r == Err::<ArbitrationAction, ArbitrationError>(
                        ArbitrationError::InvalidJson,
                    )
                    &&& *final(self) == *old(self)
                },
            },
    {
        match decode_reply(text) {
            Err(error) => Err(error),
            Ok(message) => Ok(self.receive(message)),
        }
    }
}

/// A denial of the request closes the session, and a closed session stays
/// closed whatever arrives.
pub proof fn lemma_rejection_is_terminal(reason: Seq<char>, later: Seq<MessageModel>)
    ensures
        next_status(SessionStatus::Requesting, MessageModel::Rejected(reason))
            == SessionStatus::Closed,
        status_after(SessionStatus::Closed, later) == SessionStatus::Closed,
    decreases later.len(),
{
    if later.len() > 0 {
        lemma_rejection_is_terminal(reason, later.drop_last());
    }
}

/// A message brings a session into control only if the message is a grant and
/// the session was requesting or queued.
pub proof fn lemma_control_only_by_grant(status: SessionStatus, message: MessageModel)
    requires
        !(status is Controlling),
        next_status(status, message) is Controlling,
    ensures
        message is Granted,
        status is Requesting || status is Queued,
{
}

/// A queued session stays queued under every message but a grant, and a grant
/// brings it into control.
pub proof fn lemma_queue_waits_for_grant(message: MessageModel)
    ensures
        message is Granted ==> next_status(SessionStatus::Queued, message)
            == SessionStatus::Controlling,
        !(message is Granted) ==> next_status(SessionStatus::Queued, message)
            == SessionStatus::Queued,
        next_status(SessionStatus::Requesting, MessageModel::Queued) == SessionStatus::Queued,
{
}

/// A session that starts by requesting and is found in control after a run of
/// messages has been sent a grant in that run: control never comes by itself.
pub proof fn lemma_control_implies_grant(messages: Seq<MessageModel>)
    requires
        status_after(SessionStatus::Requesting, messages) is Controlling,
    ensures
        exists|i: int| 0 <= i < messages.len() && (#[trigger] messages[i]) is Granted,
    decreases messages.len(),
{
    if messages.len() > 0 {
        let earlier = messages.drop_last();
        if status_after(SessionStatus::Requesting, earlier) is Controlling {
            lemma_control_implies_grant(earlier);
            let i = choose|i: int| 0 <= i < earlier.len() && (#[trigger] earlier[i]) is Granted;
            assert(messages[i] is Granted);
        } else {
            assert(messages[messages.len() - 1] is Granted);
        }
    }
}

} // verus!
