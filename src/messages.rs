use vstd::prelude::*;

use crate::ids::{ClientId, MessageRecipient};

verus! {

/// The body of a message: UTF-8 text or opaque bytes.
#[derive(Clone, Debug, PartialEq, Eq)]
pub enum MessagePayload {
    Text(String),
    Binary(Vec<u8>),
}

/// A message from a client session to its room. `S` is the handle through
/// which the room reaches that client's session.
pub enum MessageFromClient<S> {
    Connect(ClientId, S),
    Disconnect(ClientId),
    Message { from_client: ClientId, data: MessagePayload },
}

/// A message that a service sends towards the clients of its room.
#[derive(Clone, Debug, PartialEq, Eq)]
pub struct MessageFromServer {
    pub to_client: MessageRecipient,
    pub data: MessagePayload,
}

impl MessageFromServer {
    pub fn new(to_client: MessageRecipient, text: String) -> (r: MessageFromServer)
        ensures
            r.to_client == to_client,
            r.data == MessagePayload::Text(text),
    {
        MessageFromServer { to_client, data: MessagePayload::Text(text) }
    }

    pub fn new_binary(to_client: MessageRecipient, bytes: Vec<u8>) -> (r: MessageFromServer)
        ensures
            r.to_client == to_client,
            r.data == MessagePayload::Binary(bytes),
    {
        MessageFromServer { to_client, data: MessagePayload::Binary(bytes) }
    }
}

/// One call into a service, in the order the service must observe it.
#[derive(Clone, Debug, PartialEq, Eq)]
pub enum ServiceEvent {
    Connect(ClientId),
    Disconnect(ClientId),
    Message(ClientId, String),
    Binary(ClientId, Vec<u8>),
    Timer,
}

/// The service call that a client message stands for.
pub open spec fn event_of<S>(msg: MessageFromClient<S>) -> ServiceEvent {
    match msg {
        MessageFromClient::Connect(c, _) => ServiceEvent::Connect(c),
        MessageFromClient::Disconnect(c) => ServiceEvent::Disconnect(c),
        MessageFromClient::Message { from_client, data } => match data {
            MessagePayload::Text(t) => ServiceEvent::Message(from_client, t),
            MessagePayload::Binary(b) => ServiceEvent::Binary(from_client, b),
        },
    }
}

impl<S> MessageFromClient<S> {
    /// The service call this message is delivered as; the session handle of
    /// a connect stays with the room.
    pub fn into_event(self) -> (r: ServiceEvent)
        ensures
            r == event_of(self),
    {
        match self {
            MessageFromClient::Connect(c, _) => ServiceEvent::Connect(c),
            MessageFromClient::Disconnect(c) => ServiceEvent::Disconnect(c),
            MessageFromClient::Message { from_client, data } => match data {
                MessagePayload::Text(t) => ServiceEvent::Message(from_client, t),
                MessagePayload::Binary(b) => ServiceEvent::Binary(from_client, b),
            },
        }
    }
}

/// A request for a client id, made before a session is installed. Requests
/// under the same token get the same id.
pub struct AssignClientId {
    pub token: Option<String>,
}

/// A query for the room's connection statistics.
pub struct GetConnectionInfo;

/// What a room reports about its connections.
#[derive(Clone, Copy, Debug, PartialEq, Eq, Structural)]
pub struct ConnectionInfo {
    pub active_connections: u32,
    pub listening: bool,
    pub seconds_inactive: u64,
}

} // verus!
