//! The link handshake: a client makes itself an identifier, sends it with
//! its link code to the server, and reads the server's answer. The decisions
//! are here; the caller owns the connection and does what each step asks.

use vstd::prelude::*;
use crate::codec::{decode_line, encode_message, frame_text, line_message};
use crate::protocol::{AuthPayload, MessageView, MineChatError, MineChatMessage};

verus! {

/// Whether `c` is a digit or one of the letters `a` to `f`.
pub open spec fn is_lower_hex(c: char) -> bool {
    ('0' <= c && c <= '9') || ('a' <= c && c <= 'f')
}

/// Whether `text` has the form of a client identifier: 36 characters, a
/// hyphen as the ninth, 14th, 19th and 24th, and a lower-case hexadecimal
/// digit everywhere else.
pub open spec fn client_id_format(text: Seq<char>) -> bool {
    &&& text.len() == 36
    &&& forall|i: int|
        0 <= i < 36 ==> if i == 8 || i == 13 || i == 18 || i == 23 {
            (#[trigger] text[i]) == '-'
        } else {
            is_lower_hex(text[i])
        }
}

/// Whether `text` has the form of a client identifier.
pub fn is_client_id(text: &str) -> (res: bool)
    ensures
        res == client_id_format(text@),
{
    if text.unicode_len() != 36 {
        return false;
    }
    let mut i: usize = 0;
    while i < 36
        invariant
            i <= 36,
            text@.len() == 36,
            forall|j: int|
                0 <= j < i ==> if j == 8 || j == 13 || j == 18 || j == 23 {
                    (#[trigger] text@[j]) == '-'
                } else {
                    is_lower_hex(text@[j])
                },
        decreases 36 - i,
    {
        let c = text.get_char(i);
        let fits = if i == 8 || i == 13 || i == 18 || i == 23 {
            c == '-'
        } else {
            ('0' <= c && c <= '9') || ('a' <= c && c <= 'f')
        };
        if !fits {
            return false;
        }
        i += 1;
    }
    true
}

/// A new client identifier: `uuid::Uuid::new_v4`, written out by its
/// `to_string`, which gives the hyphenated lower-case form. The value is
/// random, so only its form is stated. `new_v4` draws from the system's
/// random source and does not return where that source fails.
#[verifier::external_body]
pub(crate) fn fresh_client_id() -> (res: String)
    ensures
        client_id_format(res@),
{
    uuid::Uuid::new_v4().to_string()
}

/// How far a link attempt has come.
#[derive(Clone, Copy, Debug, PartialEq, Eq, Structural)]
pub enum LinkState {
    /// Nothing has been done yet.
    Disconnected,
    /// The connection is being opened and the request sent.
    Connecting,
    /// The request is out; the answer is awaited.
    AwaitingAck,
    /// The server accepted. The attempt is over.
    Linked,
    /// The attempt failed. It is over; a new attempt starts from scratch.
    Failed,
}

/// What the caller reports to a link attempt.
#[derive(Debug)]
pub enum LinkEvent {
    /// The link is to be made now.
    Start,
    /// The connection was opened and the request written to it.
    Sent,
    /// One line was read from the connection. An empty line says that the
    /// peer closed it.
    Received(String),
    /// Opening the connection, writing to it or reading from it failed.
    TransportFailed(std::io::Error),
}

/// What a link attempt asks the caller to do next.
#[derive(Debug)]
pub enum LinkAction {
    /// Open a connection to `address` and write `frame` to it in one piece,
    /// then report `Sent` or `TransportFailed`.
    Open { address: String, frame: String },
    /// Read one line from the connection, then report `Received` or
    /// `TransportFailed`.
    Receive,
    /// The attempt is over. On success this is the session: the client
    /// identifier first, the server's address second.
    Finish(Result<(String, String), MineChatError>),
}

/// What the server's answer means for the client that sent `client_id` to
/// `address`: the session, or the reason for which linking failed.
pub open spec fn reply_outcome(reply: MessageView, client_id: Seq<char>, address: Seq<char>) -> Result<
    (Seq<char>, Seq<char>),
    Seq<char>,
> {
    match reply {
        MessageView::AuthAck { status, message, .. } => if status == "success"@ {
            Ok((client_id, address))
        } else {
            Err(message)
        },
        _ => Err("Unexpected response"@),
    }
}

/// Reads the server's answer to an authentication request.
///
/// An acknowledgment whose status is `success` gives the session: the
/// client identifier first, the address second. Any other acknowledgment
/// fails with the server's message, word for word, and any other kind of
/// message fails as an unexpected response.
pub fn interpret_reply(reply: MineChatMessage, client_id: String, address: String) -> (res: Result<
    (String, String),
    MineChatError,
>)
    ensures
        match reply_outcome(reply@, client_id@, address@) {
            Ok(session) => res matches Ok(got) && got.0@ == session.0 && got.1@ == session.1,
            Err(reason) => res matches Err(MineChatError::AuthFailed(text)) && text@ == reason,
        },
{
    match reply {
        MineChatMessage::AuthAck { payload } => {
            let success = "success".to_owned();
            if payload.status == success {
                Ok((client_id, address))
            } else {
                Err(MineChatError::AuthFailed(payload.message))
            }
        },
        _ => Err(MineChatError::AuthFailed("Unexpected response".to_owned())),
    }
}

/// One attempt to link a client to a server.
#[derive(Debug)]
pub struct LinkSession {
    /// How far the attempt has come.
    pub state: LinkState,
    /// The identifier made for this attempt.
    pub client_id: String,
    /// Where the server listens, as `host:port`.
    pub address: String,
    /// The code that proves the client may link.
    pub link_code: String,
}

impl LinkSession {
    /// The authentication request of this attempt.
    pub open spec fn request(&self) -> MessageView {
        MessageView::Auth { client_uuid: self.client_id@, link_code: self.link_code@ }
    }

    /// Whether two attempts are for the same client, server and code.
    pub open spec fn same_parties(&self, other: &LinkSession) -> bool {
        &&& self.client_id@ == other.client_id@
        &&& self.address@ == other.address@
        &&& self.link_code@ == other.link_code@
    }

    /// An attempt with a given identifier, not yet started.
    pub fn new(client_id: String, address: String, link_code: String) -> (res: LinkSession)
        ensures
            res.state == LinkState::Disconnected,
            res.client_id == client_id,
            res.address == address,
            res.link_code == link_code,
    {
        LinkSession { state: LinkState::Disconnected, client_id, address, link_code }
    }

    /// An attempt with a fresh identifier, not yet started.
    pub fn begin(address: &str, link_code: &str) -> (res: LinkSession)
        ensures
            res.state == LinkState::Disconnected,
            client_id_format(res.client_id@),
            res.address@ == address@,
            res.link_code@ == link_code@,
    {
        LinkSession::new(fresh_client_id(), address.to_owned(), link_code.to_owned())
    }

    /// Takes one event and says what to do next; `None` where the event
    /// does not belong to the state the attempt is in, which then stays as
    /// it is. A finished attempt takes no event.
    pub fn step(&mut self, event: LinkEvent) -> (res: Option<LinkAction>)
        ensures
            final(self).same_parties(old(self)),
            match (old(self).state, event) {
                (LinkState::Disconnected, LinkEvent::Start) => {
                    &&& final(self).state == LinkState::Connecting
                    &&& res matches Some(LinkAction::Open { address, frame })
                    &&& address@ == old(self).address@
                    &&& frame@ == frame_text(old(self).request())
                },
                (LinkState::Connecting, LinkEvent::Sent) => {
                    &&& final(self).state == LinkState::AwaitingAck
                    &&& res matches Some(LinkAction::Receive)
                },
                (LinkState::Connecting, LinkEvent::TransportFailed(cause))
                | (LinkState::AwaitingAck, LinkEvent::TransportFailed(cause)) => {
                    &&& final(self).state == LinkState::Failed
                    &&& res matches Some(LinkAction::Finish(Err(MineChatError::Io(error))))
                    &&& error == cause
                },
                (LinkState::AwaitingAck, LinkEvent::Received(line)) => {
                    if line@.len() == 0 {
                        &&& final(self).state == LinkState::Failed
                        &&& res matches Some(LinkAction::Finish(Err(error)))
                        &&& error is Disconnected
                    } else {
                        match line_message(line@) {
                            None => {
                                &&& final(self).state == LinkState::Failed
                                &&& res matches Some(LinkAction::Finish(Err(error)))
                                &&& error is Serde
                            },
                            Some(reply) => match reply_outcome(
                                reply,
                                old(self).client_id@,
                                old(self).address@,
                            ) {
                                Ok(session) => {
                                    &&& final(self).state == LinkState::Linked
                                    &&& res matches Some(LinkAction::Finish(Ok(got)))
                                    &&& got.0@ == session.0
                                    &&& got.1@ == session.1
                                },
                                Err(reason) => {
                                    &&& final(self).state == LinkState::Failed
                                    &&& res matches Some(
                                        LinkAction::Finish(Err(MineChatError::AuthFailed(text))),
                                    )
                                    &&& text@ == reason
                                },
                            },
                        }
                    }
                },
                _ => final(self).state == old(self).state && res is None,
            },
    {
        match (self.state, event) {
            (LinkState::Disconnected, LinkEvent::Start) => {
                let request = MineChatMessage::Auth {
                    payload: AuthPayload {
                        client_uuid: self.client_id.clone(),
                        link_code: self.link_code.clone(),
                    },
                };
                match encode_message(&request) {
                    Ok(frame) => {
                        self.state = LinkState::Connecting;
                        Some(LinkAction::Open { address: self.address.clone(), frame })
                    },
                    Err(error) => {
                        self.state = LinkState::Failed;
                        Some(LinkAction::Finish(Err(error)))
                    },
                }
            },
            (LinkState::Connecting, LinkEvent::Sent) => {
                self.state = LinkState::AwaitingAck;
                Some(LinkAction::Receive)
            },
            (LinkState::Connecting, LinkEvent::TransportFailed(cause))
            | (LinkState::AwaitingAck, LinkEvent::TransportFailed(cause)) => {
                self.state = LinkState::Failed;
                Some(LinkAction::Finish(Err(MineChatError::from(cause))))
            },
            (LinkState::AwaitingAck, LinkEvent::Received(line)) => {
                let outcome = match decode_line(line.as_str()) {
                    Ok(reply) => interpret_reply(
                        reply,
                        self.client_id.clone(),
                        self.address.clone(),
                    ),
                    Err(error) => Err(error),
                };
                self.state = match &outcome {
                    Ok(_) => LinkState::Linked,
                    Err(_) => LinkState::Failed,
                };
                Some(LinkAction::Finish(outcome))
            },
            _ => None,
        }
    }
}

} // verus!
