//! What holds of the codec for every message: the tag tells the kind, a
//! frame is one line, and a document that holds what a message is written
//! as reads back as that message.

use vstd::prelude::*;
use crate::codec::{
    document_message, frame_text, json_optional, payload_text, text_at,
};
use crate::json::{escaped, escaped_char, hex_digit, json_member, json_null, json_string, json_text};
use crate::protocol::{MessageView, wire_tag};

verus! {

/// Whether two messages are of the same kind.
pub open spec fn same_kind(first: MessageView, second: MessageView) -> bool {
    match first {
        MessageView::Auth { .. } => second is Auth,
        MessageView::AuthAck { .. } => second is AuthAck,
        MessageView::Chat { .. } => second is Chat,
        MessageView::Broadcast { .. } => second is Broadcast,
        MessageView::Disconnect { .. } => second is Disconnect,
    }
}

/// The tag tells the kind: messages of different kinds have different tags.
pub proof fn tag_tells_kind(first: MessageView, second: MessageView)
    ensures
        wire_tag(first) == wire_tag(second) <==> same_kind(first, second),
{
    reveal_strlit("AUTH");
    reveal_strlit("AUTH_ACK");
    reveal_strlit("CHAT");
    reveal_strlit("BROADCAST");
    reveal_strlit("DISCONNECT");
    if wire_tag(first) == wire_tag(second) {
        assert(wire_tag(first).len() == wire_tag(second).len());
        assert(wire_tag(first)[0] == wire_tag(second)[0]);
    }
}

/// Whether a text holds no line feed.
pub open spec fn no_line_feed(text: Seq<char>) -> bool {
    forall|i: int| 0 <= i < text.len() ==> text[i] != '\n'
}

/// No hexadecimal digit is a line feed.
proof fn lemma_hex_digit_no_line_feed(n: int)
    requires
        0 <= n < 16,
    ensures
        hex_digit(n) != '\n',
{
    let digits = seq![
        '0',
        '1',
        '2',
        '3',
        '4',
        '5',
        '6',
        '7',
        '8',
        '9',
        'a',
        'b',
        'c',
        'd',
        'e',
        'f',
    ];
    assert(forall|i: int| 0 <= i < 16 ==> digits[i] != '\n');
}

/// An escaped character holds no line feed.
proof fn lemma_escaped_char_no_line_feed(c: char)
    ensures
        no_line_feed(escaped_char(c)),
{
    if (c as int) < 0x20 {
        lemma_hex_digit_no_line_feed((c as int) / 16);
        lemma_hex_digit_no_line_feed((c as int) % 16);
    }
}

/// Escaping leaves no line feed in a text.
proof fn lemma_escaped_no_line_feed(text: Seq<char>)
    ensures
        no_line_feed(escaped(text)),
    decreases text.len(),
{
    if text.len() > 0 {
        lemma_escaped_no_line_feed(text.drop_last());
        lemma_escaped_char_no_line_feed(text.last());
    }
}

/// A JSON string holds no line feed.
proof fn lemma_json_string_no_line_feed(text: Seq<char>)
    ensures
        no_line_feed(json_string(text)),
{
    lemma_escaped_no_line_feed(text);
}

/// The JSON text of a field that may be missing holds no line feed.
proof fn lemma_json_optional_no_line_feed(field: Option<Seq<char>>)
    ensures
        no_line_feed(json_optional(field)),
{
    reveal_strlit("null");
    match field {
        Some(text) => lemma_json_string_no_line_feed(text),
        None => {},
    }
}

/// A payload object holds no line feed.
proof fn lemma_payload_no_line_feed(message: MessageView)
    ensures
        no_line_feed(payload_text(message)),
{
    reveal_strlit("{\"client_uuid\":");
    reveal_strlit(",\"link_code\":");
    reveal_strlit("{\"status\":");
    reveal_strlit(",\"message\":");
    reveal_strlit(",\"minecraft_uuid\":");
    reveal_strlit(",\"username\":");
    reveal_strlit("{\"message\":");
    reveal_strlit("{\"from\":");
    reveal_strlit("{\"reason\":");
    reveal_strlit("}");
    match message {
        MessageView::Auth { client_uuid, link_code } => {
            lemma_json_string_no_line_feed(client_uuid);
            lemma_json_string_no_line_feed(link_code);
        },
        MessageView::AuthAck { status, message, minecraft_uuid, username } => {
            lemma_json_string_no_line_feed(status);
            lemma_json_string_no_line_feed(message);
            lemma_json_optional_no_line_feed(minecraft_uuid);
            lemma_json_optional_no_line_feed(username);
        },
        MessageView::Chat { message } => {
            lemma_json_string_no_line_feed(message);
        },
        MessageView::Broadcast { from, message } => {
            lemma_json_string_no_line_feed(from);
            lemma_json_string_no_line_feed(message);
        },
        MessageView::Disconnect { reason } => {
            lemma_json_string_no_line_feed(reason);
        },
    }
}

/// A frame is one line: it ends in a line feed and holds no other, whatever
/// the fields of the message hold.
pub proof fn frame_is_one_line(message: MessageView)
    ensures
        frame_text(message).len() > 0,
        frame_text(message).last() == '\n',
        no_line_feed(frame_text(message).drop_last()),
{
    reveal_strlit("{\"type\":\"");
    reveal_strlit("\",\"payload\":");
    reveal_strlit("}\n");
    reveal_strlit("AUTH");
    reveal_strlit("AUTH_ACK");
    reveal_strlit("CHAT");
    reveal_strlit("BROADCAST");
    reveal_strlit("DISCONNECT");
    lemma_payload_no_line_feed(message);
}

/// Whether `doc` is an object that holds under `key` what a field that may
/// be missing is written as: the string of its text, or `null` for none.
pub open spec fn holds_optional_text(
    doc: serde_json::Value,
    key: Seq<char>,
    field: Option<Seq<char>>,
) -> bool {
    json_member(doc, key) matches Some(found) && match field {
        Some(text) => !json_null(found) && json_text(found) == Some(text),
        None => json_null(found),
    }
}

/// Whether `payload` is an object that holds each field of `message` under
/// the field's name, as the field is written.
pub open spec fn payload_holds(payload: serde_json::Value, message: MessageView) -> bool {
    match message {
        MessageView::Auth { client_uuid, link_code } => {
            &&& text_at(payload, "client_uuid"@) == Some(client_uuid)
            &&& text_at(payload, "link_code"@) == Some(link_code)
        },
        MessageView::AuthAck { status, message, minecraft_uuid, username } => {
            &&& text_at(payload, "status"@) == Some(status)
            &&& text_at(payload, "message"@) == Some(message)
            &&& holds_optional_text(payload, "minecraft_uuid"@, minecraft_uuid)
            &&& holds_optional_text(payload, "username"@, username)
        },
        MessageView::Chat { message } => text_at(payload, "message"@) == Some(message),
        MessageView::Broadcast { from, message } => {
            &&& text_at(payload, "from"@) == Some(from)
            &&& text_at(payload, "message"@) == Some(message)
        },
        MessageView::Disconnect { reason } => text_at(payload, "reason"@) == Some(reason),
    }
}

/// Whether `doc` is the object that `message` is written as: the tag of the
/// message under `type`, and under `payload` an object that holds its
/// fields.
pub open spec fn document_holds(doc: serde_json::Value, message: MessageView) -> bool {
    &&& text_at(doc, "type"@) == Some(wire_tag(message))
    &&& json_member(doc, "payload"@) matches Some(payload) && payload_holds(payload, message)
}

/// Reading gives back what was written: a document that holds the tag and
/// the fields of a message, as they are written, reads as that message.
pub proof fn written_document_reads_back(doc: serde_json::Value, message: MessageView)
    requires
        document_holds(doc, message),
    ensures
        document_message(doc) == Some(message),
{
    reveal_strlit("AUTH");
    reveal_strlit("AUTH_ACK");
    reveal_strlit("CHAT");
    reveal_strlit("BROADCAST");
    reveal_strlit("DISCONNECT");
    // The five tags differ in their length or in their first letter.
    let tag = wire_tag(message);
    assert(tag.len() >= 4 && (tag[0] == 'A' || tag[0] == 'B' || tag[0] == 'C' || tag[0] == 'D'));
}

} // verus!
