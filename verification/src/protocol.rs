//! The protocol's data: the five kinds of message, their payloads, and the
//! errors that sending, receiving and linking can end in.

use vstd::prelude::*;

verus! {

/// The error of a failed transport operation.
#[verifier::external_type_specification]
#[verifier::external_body]
pub struct ExIoError(std::io::Error);

/// The error `uuid` reports.
#[verifier::external_type_specification]
#[verifier::external_body]
pub struct ExUuidError(uuid::Error);

/// What can go wrong while a message is sent or received or a client is
/// linked. Every kind ends the operation in progress.
#[derive(Debug)]
pub enum MineChatError {
    /// The transport failed.
    Io(std::io::Error),
    /// A message could not be written as JSON, or a line did not hold one.
    Serde(serde_json::Error),
    /// An operation needed a linked server, and there was none.
    ServerNotLinked,
    /// The configuration is unusable.
    ConfigError(String),
    /// The server refused to link; this is the reason it gave.
    AuthFailed(String),
    /// No client identifier could be made.
    Uuid(uuid::Error),
    /// The peer closed the stream where a message was expected.
    Disconnected,
}

impl From<std::io::Error> for MineChatError {
    fn from(error: std::io::Error) -> (res: Self) {
        MineChatError::Io(error)
    }
}

impl vstd::std_specs::convert::FromSpecImpl<std::io::Error> for MineChatError {
    open spec fn obeys_from_spec() -> bool {
        true
    }

    open spec fn from_spec(error: std::io::Error) -> Self {
        MineChatError::Io(error)
    }
}

impl From<serde_json::Error> for MineChatError {
    fn from(error: serde_json::Error) -> (res: Self) {
        MineChatError::Serde(error)
    }
}

impl vstd::std_specs::convert::FromSpecImpl<serde_json::Error> for MineChatError {
    open spec fn obeys_from_spec() -> bool {
        true
    }

    open spec fn from_spec(error: serde_json::Error) -> Self {
        MineChatError::Serde(error)
    }
}

impl From<uuid::Error> for MineChatError {
    fn from(error: uuid::Error) -> (res: Self) {
        MineChatError::Uuid(error)
    }
}

impl vstd::std_specs::convert::FromSpecImpl<uuid::Error> for MineChatError {
    open spec fn obeys_from_spec() -> bool {
        true
    }

    open spec fn from_spec(error: uuid::Error) -> Self {
        MineChatError::Uuid(error)
    }
}

/// What an authentication request carries.
#[derive(Debug, PartialEq, Eq)]
pub struct AuthPayload {
    /// The identifier the client made for this attempt.
    pub client_uuid: String,
    /// The code that proves the client may link.
    pub link_code: String,
}

/// What the server answers to an authentication request.
#[derive(Debug, PartialEq, Eq)]
pub struct AuthAckPayload {
    /// `"success"` or `"failure"`.
    pub status: String,
    /// The server's words on the outcome.
    pub message: String,
    /// The player's identifier in the game, given on success.
    pub minecraft_uuid: Option<String>,
    /// The player's name in the game, given on success.
    pub username: Option<String>,
}

/// What a chat message carries.
#[derive(Debug, PartialEq, Eq)]
pub struct ChatPayload {
    /// The text.
    pub message: String,
}

/// What a broadcast carries.
#[derive(Debug, PartialEq, Eq)]
pub struct BroadcastPayload {
    /// Who sent it.
    pub from: String,
    /// The text.
    pub message: String,
}

/// What a disconnect notice carries.
#[derive(Debug, PartialEq, Eq)]
pub struct DisconnectPayload {
    /// Why the connection ends.
    pub reason: String,
}

/// A protocol message: one of five kinds, each with the payload of its kind.
#[derive(Debug, PartialEq, Eq)]
#[allow(inconsistent_fields)]
pub enum MineChatMessage {
    /// A client asks to be linked.
    Auth { payload: AuthPayload },
    /// The server answers such a request.
    AuthAck { payload: AuthAckPayload },
    /// A line of chat.
    Chat { payload: ChatPayload },
    /// A line of chat passed on, with its sender.
    Broadcast { payload: BroadcastPayload },
    /// One side announces that it leaves.
    Disconnect { payload: DisconnectPayload },
}

/// A copy of a field that may be missing.
fn clone_optional(field: &Option<String>) -> (res: Option<String>)
    ensures
        res == *field,
{
    match field {
        Some(text) => Some(text.clone()),
        None => None,
    }
}

impl Clone for AuthPayload {
    fn clone(&self) -> (res: Self)
        ensures
            res == *self,
    {
        AuthPayload { client_uuid: self.client_uuid.clone(), link_code: self.link_code.clone() }
    }
}

impl Clone for AuthAckPayload {
    fn clone(&self) -> (res: Self)
        ensures
            res == *self,
    {
        AuthAckPayload {
            status: self.status.clone(),
            message: self.message.clone(),
            minecraft_uuid: clone_optional(&self.minecraft_uuid),
            username: clone_optional(&self.username),
        }
    }
}

impl Clone for ChatPayload {
    fn clone(&self) -> (res: Self)
        ensures
            res == *self,
    {
        ChatPayload { message: self.message.clone() }
    }
}

impl Clone for BroadcastPayload {
    fn clone(&self) -> (res: Self)
        ensures
            res == *self,
    {
        BroadcastPayload { from: self.from.clone(), message: self.message.clone() }
    }
}

impl Clone for DisconnectPayload {
    fn clone(&self) -> (res: Self)
        ensures
            res == *self,
    {
        DisconnectPayload { reason: self.reason.clone() }
    }
}

impl Clone for MineChatMessage {
    fn clone(&self) -> (res: Self)
        ensures
            res == *self,
    {
        match self {
            MineChatMessage::Auth { payload } => MineChatMessage::Auth { payload: payload.clone() },
            MineChatMessage::AuthAck { payload } => MineChatMessage::AuthAck {
                payload: payload.clone(),
            },
            MineChatMessage::Chat { payload } => MineChatMessage::Chat { payload: payload.clone() },
            MineChatMessage::Broadcast { payload } => MineChatMessage::Broadcast {
                payload: payload.clone(),
            },
            MineChatMessage::Disconnect { payload } => MineChatMessage::Disconnect {
                payload: payload.clone(),
            },
        }
    }
}

/// A message as a mathematical value: its kind and the text of each field.
pub enum MessageView {
    Auth { client_uuid: Seq<char>, link_code: Seq<char> },
    AuthAck {
        status: Seq<char>,
        message: Seq<char>,
        minecraft_uuid: Option<Seq<char>>,
        username: Option<Seq<char>>,
    },
    Chat { message: Seq<char> },
    Broadcast { from: Seq<char>, message: Seq<char> },
    Disconnect { reason: Seq<char> },
}

/// The text of a field that may be missing.
pub open spec fn optional_text(field: Option<String>) -> Option<Seq<char>> {
    match field {
        Some(text) => Some(text@),
        None => None,
    }
}

impl View for MineChatMessage {
    type V = MessageView;

    open spec fn view(&self) -> MessageView {
        match *self {
            MineChatMessage::Auth { payload } => MessageView::Auth {
                client_uuid: payload.client_uuid@,
                link_code: payload.link_code@,
            },
            MineChatMessage::AuthAck { payload } => MessageView::AuthAck {
                status: payload.status@,
                message: payload.message@,
                minecraft_uuid: optional_text(payload.minecraft_uuid),
                username: optional_text(payload.username),
            },
            MineChatMessage::Chat { payload } => MessageView::Chat { message: payload.message@ },
            MineChatMessage::Broadcast { payload } => MessageView::Broadcast {
                from: payload.from@,
                message: payload.message@,
            },
            MineChatMessage::Disconnect { payload } => MessageView::Disconnect {
                reason: payload.reason@,
            },
        }
    }
}

/// The word that names a message's kind on the wire.
pub open spec fn wire_tag(message: MessageView) -> Seq<char> {
    match message {
        MessageView::Auth { .. } => "AUTH"@,
        MessageView::AuthAck { .. } => "AUTH_ACK"@,
        MessageView::Chat { .. } => "CHAT"@,
        MessageView::Broadcast { .. } => "BROADCAST"@,
        MessageView::Disconnect { .. } => "DISCONNECT"@,
    }
}

impl MineChatMessage {
    /// The word that names this message's kind on the wire.
    pub fn tag(&self) -> (res: &'static str)
        ensures
            res@ == wire_tag(self@),
    {
        match self {
            MineChatMessage::Auth { .. } => "AUTH",
            MineChatMessage::AuthAck { .. } => "AUTH_ACK",
            MineChatMessage::Chat { .. } => "CHAT",
            MineChatMessage::Broadcast { .. } => "BROADCAST",
            MineChatMessage::Disconnect { .. } => "DISCONNECT",
        }
    }
}

} // verus!
