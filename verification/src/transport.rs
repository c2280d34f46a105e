//! The messages of the remote transport, and what each one means to the
//! relay engine and to the arbitration.
//!
//! Command frames travel as binary messages, byte for byte; the coordinator's
//! verdicts travel as text; a ping is a keep-alive and is answered by a pong
//! with the same payload.

use vstd::prelude::*;
use crate::arbitration::{
    decode_reply,
    document_verdict,
    ArbitrationError,
    CoordinatorMessage,
    MessageModel,
};
use crate::json::json_document;
use crate::relay::{EventModel, RelayEvent};

verus! {

/// One message of the remote transport.
#[derive(Clone, Debug, PartialEq, Eq)]
pub enum TunnelMessage {
    Text(String),
    Binary(Vec<u8>),
    Ping(Vec<u8>),
    Pong(Vec<u8>),
    Close,
}

/// The mathematical content of a `TunnelMessage`.
pub ghost enum TunnelModel {
    Text(Seq<char>),
    Binary(Seq<u8>),
    Ping(Seq<u8>),
    Pong(Seq<u8>),
    Close,
}

impl View for TunnelMessage {
    type V = TunnelModel;

    open spec fn view(&self) -> TunnelModel {
        match *self {
            TunnelMessage::Text(text) => TunnelModel::Text(text@),
            TunnelMessage::Binary(bytes) => TunnelModel::Binary(bytes@),
            TunnelMessage::Ping(payload) => TunnelModel::Ping(payload@),
            TunnelMessage::Pong(payload) => TunnelModel::Pong(payload@),
            TunnelMessage::Close => TunnelModel::Close,
        }
    }
}

/// What a message means where the tunnel is the relay's destination: a binary
/// message is the reply.
pub open spec fn reply_event_spec(message: TunnelModel) -> EventModel {
    match message {
        TunnelModel::Binary(bytes) => EventModel::ReplyRead(bytes),
        TunnelModel::Ping(payload) => EventModel::KeepAlive(payload),
        _ => EventModel::Unrecognized,
    }
}

/// What a message means where the tunnel is the relay's source: a binary
/// message is the next request, except an empty one, by which the tunnel says
/// that the operator has left and which asks for nothing.
pub open spec fn request_event_spec(message: TunnelModel) -> EventModel {
    match message {
        TunnelModel::Binary(bytes) => if bytes.len() == 0 {
            EventModel::Unrecognized
        } else {
            EventModel::RequestRead(bytes)
        },
        TunnelModel::Ping(payload) => EventModel::KeepAlive(payload),
        _ => EventModel::Unrecognized,
    }
}

/// What a message other than a text means to the arbitration.
pub open spec fn control_message_spec(message: TunnelModel) -> MessageModel {
    match message {
        TunnelModel::Ping(payload) => MessageModel::KeepAlive(payload),
        _ => MessageModel::Other,
    }
}

/// The relay event of a message on the operator's side, where replies come
/// through the tunnel.
pub fn reply_event(message: TunnelMessage) -> (r: RelayEvent)
    ensures
        r@ == reply_event_spec(message@),
{
    match message {
        TunnelMessage::Binary(bytes) => RelayEvent::ReplyRead(bytes),
        TunnelMessage::Ping(payload) => RelayEvent::KeepAlive(payload),
        _ => RelayEvent::Unrecognized,
    }
}

/// The relay event of a message on the device's side, where requests come
/// through the tunnel.
pub fn request_event(message: TunnelMessage) -> (r: RelayEvent)
    ensures
        r@ == request_event_spec(message@),
{
    match message {
        TunnelMessage::Binary(bytes) => if bytes.len() == 0 {
            RelayEvent::Unrecognized
        } else {
            RelayEvent::RequestRead(bytes)
        },
        TunnelMessage::Ping(payload) => RelayEvent::KeepAlive(payload),
        _ => RelayEvent::Unrecognized,
    }
}

/// The coordinator's message in a message of the transport. A text is read as
/// JSON and is an error where it is none; a ping is a keep-alive; anything
/// else is `Other`.
pub fn control_message(message: TunnelMessage) -> (r: Result<CoordinatorMessage, ArbitrationError>)
    ensures
        match message@ {
            TunnelModel::Text(text) => match json_document(text) {
                Some(members) => r is Ok && r->Ok_0@ == document_verdict(members),
                None => r == Err::<CoordinatorMessage, ArbitrationError>(
                    ArbitrationError::InvalidJson,
                ),
            },
            other => r is Ok && r->Ok_0@ == control_message_spec(other),
        },
{
    match message {
        TunnelMessage::Text(text) => decode_reply(text.as_str()),
        TunnelMessage::Ping(payload) => Ok(CoordinatorMessage::KeepAlive(payload)),
        _ => Ok(CoordinatorMessage::Other),
    }
}

} // verus!
