//! The frame codec: a message becomes one line of JSON text that ends in a
//! line feed, and one line read from the peer becomes a message again.

use vstd::prelude::*;
use crate::json::{
    is_null, json_member, json_null, json_string, json_text, json_value, malformed, member,
    parse_value, quote_text, text_of,
};
use crate::protocol::{
    AuthAckPayload, AuthPayload, BroadcastPayload, ChatPayload, DisconnectPayload, MessageView,
    MineChatError, MineChatMessage, optional_text, wire_tag,
};

verus! {

/// The JSON text of a field that may be missing: `null` stands for none.
pub open spec fn json_optional(field: Option<Seq<char>>) -> Seq<char> {
    match field {
        Some(text) => json_string(text),
        None => "null"@,
    }
}

/// The JSON object that carries a message's fields, its members in the
/// order in which the payload declares them, without any blank.
pub open spec fn payload_text(message: MessageView) -> Seq<char> {
    match message {
        MessageView::Auth { client_uuid, link_code } => "{\"client_uuid\":"@ + json_string(
            client_uuid,
        ) + ",\"link_code\":"@ + json_string(link_code) + "}"@,
        MessageView::AuthAck { status, message, minecraft_uuid, username } => "{\"status\":"@
            + json_string(status) + ",\"message\":"@ + json_string(message)
            + ",\"minecraft_uuid\":"@ + json_optional(minecraft_uuid) + ",\"username\":"@
            + json_optional(username) + "}"@,
        MessageView::Chat { message } => "{\"message\":"@ + json_string(message) + "}"@,
        MessageView::Broadcast { from, message } => "{\"from\":"@ + json_string(from)
            + ",\"message\":"@ + json_string(message) + "}"@,
        MessageView::Disconnect { reason } => "{\"reason\":"@ + json_string(reason) + "}"@,
    }
}

/// The frame around a payload: the object of the tag and the payload, then
/// one line feed.
pub open spec fn framed(tag: Seq<char>, payload: Seq<char>) -> Seq<char> {
    "{\"type\":\""@ + tag + "\",\"payload\":"@ + payload + "}\n"@
}

/// The frame of a message.
pub open spec fn frame_text(message: MessageView) -> Seq<char> {
    framed(wire_tag(message), payload_text(message))
}

/// Appends the JSON text of `field` to `out`.
fn append_string(out: &mut String, field: &str) -> (res: Result<(), MineChatError>)
    ensures
        res is Ok,
        final(out)@ == old(out)@ + json_string(field@),
{
    match quote_text(field) {
        Ok(quoted) => {
            out.append(quoted.as_str());
            Ok(())
        },
        Err(error) => Err(MineChatError::from(error)),
    }
}

/// Appends the JSON text of `field`, or `null` for none, to `out`.
fn append_optional(out: &mut String, field: &Option<String>) -> (res: Result<(), MineChatError>)
    ensures
        res is Ok,
        final(out)@ == old(out)@ + json_optional(optional_text(*field)),
{
    match field {
        Some(text) => append_string(out, text.as_str()),
        None => {
            out.append("null");
            Ok(())
        },
    }
}

/// Writes the fields of a message as its payload object.
///
/// Every message can be written. The result is a `Result` because the
/// fields are written by `serde_json`, whose failure would come back as
/// `Serde`.
pub fn encode_payload(message: &MineChatMessage) -> (res: Result<String, MineChatError>)
    ensures
        res matches Ok(text) && text@ == payload_text(message@),
{
    let mut out = String::new();
    match message {
        MineChatMessage::Auth { payload } => {
            out.append("{\"client_uuid\":");
            append_string(&mut out, payload.client_uuid.as_str())?;
            out.append(",\"link_code\":");
            append_string(&mut out, payload.link_code.as_str())?;
        },
        MineChatMessage::AuthAck { payload } => {
            out.append("{\"status\":");
            append_string(&mut out, payload.status.as_str())?;
            out.append(",\"message\":");
            append_string(&mut out, payload.message.as_str())?;
            out.append(",\"minecraft_uuid\":");
            append_optional(&mut out, &payload.minecraft_uuid)?;
            out.append(",\"username\":");
            append_optional(&mut out, &payload.username)?;
        },
        MineChatMessage::Chat { payload } => {
            out.append("{\"message\":");
            append_string(&mut out, payload.message.as_str())?;
        },
        MineChatMessage::Broadcast { payload } => {
            out.append("{\"from\":");
            append_string(&mut out, payload.from.as_str())?;
            out.append(",\"message\":");
            append_string(&mut out, payload.message.as_str())?;
        },
        MineChatMessage::Disconnect { payload } => {
            out.append("{\"reason\":");
            append_string(&mut out, payload.reason.as_str())?;
        },
    }
    out.append("}");
    Ok(out)
}

/// Puts a payload, already written as JSON, into the frame of its tag.
pub fn frame(tag: &str, payload: &str) -> (res: String)
    ensures
        res@ == framed(tag@, payload@),
{
    let mut out = String::new();
    out.append("{\"type\":\"");
    out.append(tag);
    out.append("\",\"payload\":");
    out.append(payload);
    out.append("}\n");
    out
}

/// Writes a message as its frame: what is to be sent for it, in one piece.
///
/// Every message can be written; see `encode_payload` for the `Result`.
pub fn encode_message(message: &MineChatMessage) -> (res: Result<String, MineChatError>)
    ensures
        res matches Ok(text) && text@ == frame_text(message@),
{
    match encode_payload(message) {
        Ok(payload) => Ok(frame(message.tag(), payload.as_str())),
        Err(error) => Err(error),
    }
}

/// The text of the member under `key`, where `doc` is an object that has
/// such a member and the member is a string.
pub open spec fn text_at(doc: serde_json::Value, key: Seq<char>) -> Option<Seq<char>> {
    match json_member(doc, key) {
        Some(found) => json_text(found),
        None => None,
    }
}

/// The member under `key` read as a text that may be missing: a member that
/// is absent or `null` reads as no text, a string as its text, and anything
/// else does not read at all (the outer `None`).
pub open spec fn optional_text_at(doc: serde_json::Value, key: Seq<char>) -> Option<
    Option<Seq<char>>,
> {
    match json_member(doc, key) {
        None => Some(None),
        Some(found) => if json_null(found) {
            Some(None)
        } else {
            match json_text(found) {
                Some(text) => Some(Some(text)),
                None => None,
            }
        },
    }
}

/// The message of kind `tag` that `payload` holds: each field of that kind
/// is read from the member of its name, members of other names are passed
/// over, and a tag that names no kind gives no message.
pub open spec fn payload_message(tag: Seq<char>, payload: serde_json::Value) -> Option<
    MessageView,
> {
    if tag == "AUTH"@ {
        match (text_at(payload, "client_uuid"@), text_at(payload, "link_code"@)) {
            (Some(client_uuid), Some(link_code)) => Some(
                MessageView::Auth { client_uuid, link_code },
            ),
            _ => None,
        }
    } else if tag == "AUTH_ACK"@ {
        match (
            text_at(payload, "status"@),
            text_at(payload, "message"@),
            optional_text_at(payload, "minecraft_uuid"@),
            optional_text_at(payload, "username"@),
        ) {
            (Some(status), Some(message), Some(minecraft_uuid), Some(username)) => Some(
                MessageView::AuthAck { status, message, minecraft_uuid, username },
            ),
            _ => None,
        }
    } else if tag == "CHAT"@ {
        match text_at(payload, "message"@) {
            Some(message) => Some(MessageView::Chat { message }),
            None => None,
        }
    } else if tag == "BROADCAST"@ {
        match (text_at(payload, "from"@), text_at(payload, "message"@)) {
            (Some(from), Some(message)) => Some(MessageView::Broadcast { from, message }),
            _ => None,
        }
    } else if tag == "DISCONNECT"@ {
        match text_at(payload, "reason"@) {
            Some(reason) => Some(MessageView::Disconnect { reason }),
            None => None,
        }
    } else {
        None
    }
}

/// The message that a document holds: its member `type` is the tag, its
/// member `payload` carries the fields.
pub open spec fn document_message(doc: serde_json::Value) -> Option<MessageView> {
    match (text_at(doc, "type"@), json_member(doc, "payload"@)) {
        (Some(tag), Some(payload)) => payload_message(tag, payload),
        _ => None,
    }
}

/// The message that a line of text holds, if the line is JSON and the
/// document is a message.
pub open spec fn line_message(line: Seq<char>) -> Option<MessageView> {
    match json_value(line) {
        Some(doc) => document_message(doc),
        None => None,
    }
}

/// Whether `text` is the word `word`.
fn is_word(text: &String, word: &str) -> (res: bool)
    ensures
        res == (text@ == word@),
{
    let owned = word.to_owned();
    *text == owned
}

/// Reads the member under `key` as text.
fn read_text(doc: &serde_json::Value, key: &str) -> (res: Option<String>)
    ensures
        match text_at(*doc, key@) {
            Some(text) => res matches Some(got) && got@ == text,
            None => res is None,
        },
{
    match member(doc, key) {
        Some(found) => match text_of(found) {
            Some(text) => Some(text.to_owned()),
            None => None,
        },
        None => None,
    }
}

/// Reads the member under `key` as text that may be missing.
fn read_optional_text(doc: &serde_json::Value, key: &str) -> (res: Option<Option<String>>)
    ensures
        match optional_text_at(*doc, key@) {
            Some(field) => res matches Some(got) && optional_text(got) == field,
            None => res is None,
        },
{
    match member(doc, key) {
        None => Some(None),
        Some(found) => {
            if is_null(found) {
                Some(None)
            } else {
                match text_of(found) {
                    Some(text) => Some(Some(text.to_owned())),
                    None => None,
                }
            }
        },
    }
}

/// Reads the fields of the kind that `tag` names from `payload`.
fn read_payload(tag: &String, payload: &serde_json::Value) -> (res: Option<MineChatMessage>)
    ensures
        match payload_message(tag@, *payload) {
            Some(message) => res matches Some(got) && got@ == message,
            None => res is None,
        },
{
    if is_word(tag, "AUTH") {
        let client_uuid = read_text(payload, "client_uuid")?;
        let link_code = read_text(payload, "link_code")?;
        Some(MineChatMessage::Auth { payload: AuthPayload { client_uuid, link_code } })
    } else if is_word(tag, "AUTH_ACK") {
        let status = read_text(payload, "status")?;
        let message = read_text(payload, "message")?;
        let minecraft_uuid = read_optional_text(payload, "minecraft_uuid")?;
        let username = read_optional_text(payload, "username")?;
        Some(
            MineChatMessage::AuthAck {
                payload: AuthAckPayload { status, message, minecraft_uuid, username },
            },
        )
    } else if is_word(tag, "CHAT") {
        let message = read_text(payload, "message")?;
        Some(MineChatMessage::Chat { payload: ChatPayload { message } })
    } else if is_word(tag, "BROADCAST") {
        let from = read_text(payload, "from")?;
        let message = read_text(payload, "message")?;
        Some(MineChatMessage::Broadcast { payload: BroadcastPayload { from, message } })
    } else if is_word(tag, "DISCONNECT") {
        let reason = read_text(payload, "reason")?;
        Some(MineChatMessage::Disconnect { payload: DisconnectPayload { reason } })
    } else {
        None
    }
}

/// Reads a parsed document as a message.
///
/// A document that is no object, lacks the tag or the payload, names no
/// kind, or lacks a field of its kind or holds it as something other than
/// text, is refused as `Serde`; nothing is guessed or filled in.
pub fn decode_document(doc: &serde_json::Value) -> (res: Result<MineChatMessage, MineChatError>)
    ensures
        match document_message(*doc) {
            Some(message) => res matches Ok(got) && got@ == message,
            None => res matches Err(error) && error is Serde,
        },
{
    let tag = match read_text(doc, "type") {
        Some(tag) => tag,
        None => {
            return Err(MineChatError::from(malformed("the message has no tag")));
        },
    };
    let payload = match member(doc, "payload") {
        Some(payload) => payload,
        None => {
            return Err(MineChatError::from(malformed("the message has no payload")));
        },
    };
    match read_payload(&tag, payload) {
        Some(message) => Ok(message),
        None => Err(
            MineChatError::from(malformed("the payload does not fit the kind of the message")),
        ),
    }
}

/// Reads the line that a read from the peer gave as a message.
///
/// An empty line means that the peer closed the stream: `Disconnected`. Any
/// other line is parsed as one JSON document and read as a message; a line
/// that is no JSON, or whose document is no message, is refused as `Serde`.
pub fn decode_line(line: &str) -> (res: Result<MineChatMessage, MineChatError>)
    ensures
        line@.len() == 0 ==> (res matches Err(error) && error is Disconnected),
        line@.len() > 0 ==> match line_message(line@) {
            Some(message) => res matches Ok(got) && got@ == message,
            None => res matches Err(error) && error is Serde,
        },
{
    if line.is_empty() {
        return Err(MineChatError::Disconnected);
    }
    match parse_value(line) {
        Ok(doc) => decode_document(&doc),
        Err(error) => Err(MineChatError::from(error)),
    }
}

} // verus!
