use minechat_protocol::codec::{decode_line, encode_message};
use minechat_protocol::handshake::{
    interpret_reply, is_client_id, LinkAction, LinkEvent, LinkSession, LinkState,
};
use minechat_protocol::protocol::{
    AuthAckPayload, AuthPayload, ChatPayload, MineChatError, MineChatMessage,
};

const REJECTION: &str = "{\"type\":\"AUTH_ACK\",\"payload\":{\"status\":\"failure\",\"message\":\"bad code\",\"minecraft_uuid\":null,\"username\":null}}\n";
const ACCEPTANCE: &str = "{\"type\":\"AUTH_ACK\",\"payload\":{\"status\":\"success\",\"message\":\"linked\",\"minecraft_uuid\":\"069a79f4-44e9-4726-a5be-fca90e38aaf5\",\"username\":\"Notch\"}}\n";

/// What a peer that accepts the connection saw of one link attempt, and how
/// the attempt ended.
struct Exchange {
    client_id: String,
    connected_to: String,
    sent: String,
    result: Result<(String, String), MineChatError>,
    state: LinkState,
}

/// Links to a peer that takes the connection, takes the request and answers
/// with `reply`; an empty reply stands for a peer that closes the stream.
fn link_against(reply: &str, address: &str, code: &str) -> Exchange {
    let mut session = LinkSession::begin(address, code);
    let client_id = session.client_id.clone();
    let mut connected_to = String::new();
    let mut sent = String::new();
    let mut action = session.step(LinkEvent::Start);
    loop {
        action = match action {
            Some(LinkAction::Open { address, frame }) => {
                connected_to = address;
                sent = frame;
                session.step(LinkEvent::Sent)
            }
            Some(LinkAction::Receive) => session.step(LinkEvent::Received(reply.to_string())),
            Some(LinkAction::Finish(result)) => {
                return Exchange { client_id, connected_to, sent, result, state: session.state };
            }
            None => panic!("the attempt asked for nothing before it was over"),
        };
    }
}

fn started(address: &str, code: &str) -> LinkSession {
    let mut session = LinkSession::begin(address, code);
    assert!(matches!(session.step(LinkEvent::Start), Some(LinkAction::Open { .. })));
    session
}

fn awaiting(address: &str, code: &str) -> LinkSession {
    let mut session = started(address, code);
    assert!(matches!(session.step(LinkEvent::Sent), Some(LinkAction::Receive)));
    session
}

fn broken_pipe() -> std::io::Error {
    std::io::Error::new(std::io::ErrorKind::BrokenPipe, "pipe")
}

fn ack(status: &str, message: &str) -> MineChatMessage {
    MineChatMessage::AuthAck {
        payload: AuthAckPayload {
            status: status.to_string(),
            message: message.to_string(),
            minecraft_uuid: None,
            username: None,
        },
    }
}

#[test]
fn a_rejection_fails_with_the_servers_words() {
    let exchange = link_against(REJECTION, "127.0.0.1:25575", "A1B2C3");
    assert!(matches!(&exchange.result, Err(MineChatError::AuthFailed(text)) if text == "bad code"));
    assert_eq!(exchange.state, LinkState::Failed);
}

#[test]
fn an_acceptance_gives_the_identifier_and_the_address() {
    let exchange = link_against(ACCEPTANCE, "play.example.org:25575", "A1B2C3");
    let (identifier, address) = exchange.result.unwrap();
    assert_eq!(identifier, exchange.client_id);
    assert_eq!(address, "play.example.org:25575");
    assert_eq!(exchange.state, LinkState::Linked);
}

#[test]
fn the_request_carries_the_identifier_and_the_code() {
    let exchange = link_against(ACCEPTANCE, "play.example.org:25575", "A1B2C3");
    assert_eq!(exchange.connected_to, "play.example.org:25575");
    assert_eq!(
        exchange.sent,
        format!(
            "{{\"type\":\"AUTH\",\"payload\":{{\"client_uuid\":\"{}\",\"link_code\":\"A1B2C3\"}}}}\n",
            exchange.client_id
        )
    );
    assert_eq!(
        decode_line(&exchange.sent).unwrap(),
        MineChatMessage::Auth {
            payload: AuthPayload {
                client_uuid: exchange.client_id.clone(),
                link_code: "A1B2C3".to_string(),
            },
        }
    );
}

#[test]
fn two_attempts_have_different_identifiers_of_the_right_form() {
    let first = link_against(ACCEPTANCE, "127.0.0.1:25575", "A1B2C3");
    let second = link_against(ACCEPTANCE, "127.0.0.1:25575", "A1B2C3");
    assert_ne!(first.client_id, second.client_id);
    for identifier in [&first.client_id, &second.client_id] {
        assert!(is_client_id(identifier));
        assert_eq!(identifier.len(), 36);
        for (at, c) in identifier.chars().enumerate() {
            if at == 8 || at == 13 || at == 18 || at == 23 {
                assert_eq!(c, '-');
            } else {
                assert!(c.is_ascii_digit() || ('a'..='f').contains(&c));
            }
        }
    }
}

#[test]
fn many_attempts_have_identifiers_of_the_right_form() {
    for _ in 0..200 {
        let session = LinkSession::begin("127.0.0.1:25575", "code");
        assert!(is_client_id(&session.client_id));
        assert_eq!(session.state, LinkState::Disconnected);
        assert_eq!(session.address, "127.0.0.1:25575");
        assert_eq!(session.link_code, "code");
    }
}

#[test]
fn a_reply_of_another_kind_is_unexpected() {
    let reply = "{\"type\":\"CHAT\",\"payload\":{\"message\":\"hello\"}}\n";
    let exchange = link_against(reply, "127.0.0.1:25575", "A1B2C3");
    assert!(matches!(
        &exchange.result,
        Err(MineChatError::AuthFailed(text)) if text == "Unexpected response"
    ));
    assert_eq!(exchange.state, LinkState::Failed);
}

#[test]
fn a_peer_that_closes_the_stream_disconnects() {
    let exchange = link_against("", "127.0.0.1:25575", "A1B2C3");
    assert!(matches!(exchange.result, Err(MineChatError::Disconnected)));
    assert_eq!(exchange.state, LinkState::Failed);
}

#[test]
fn a_reply_that_is_no_message_is_a_decode_error() {
    for reply in ["not json\n", "{\"type\":\"UNKNOWN\",\"payload\":{}}\n", "{}\n", "\n"] {
        let exchange = link_against(reply, "127.0.0.1:25575", "A1B2C3");
        assert!(matches!(exchange.result, Err(MineChatError::Serde(_))));
        assert_eq!(exchange.state, LinkState::Failed);
    }
}

#[test]
fn only_the_exact_word_success_links() {
    for status in ["failure", "", "Success", "SUCCESS", "success ", "ok", "succes"] {
        let reply = encode_message(&ack(status, "the reason")).unwrap();
        let exchange = link_against(&reply, "127.0.0.1:25575", "A1B2C3");
        assert!(matches!(
            &exchange.result,
            Err(MineChatError::AuthFailed(text)) if text == "the reason"
        ));
    }
}

#[test]
fn the_servers_words_come_back_unchanged() {
    for words in ["", "bad code", "  spaces  ", "line\nbreak", "quote \" and \\", "\u{e9}\u{1f600}"] {
        let reply = encode_message(&ack("failure", words)).unwrap();
        let exchange = link_against(&reply, "127.0.0.1:25575", "A1B2C3");
        assert!(matches!(&exchange.result, Err(MineChatError::AuthFailed(text)) if text == words));
    }
}

#[test]
fn success_links_even_without_the_players_identity() {
    let reply = encode_message(&ack("success", "")).unwrap();
    let exchange = link_against(&reply, "127.0.0.1:25575", "A1B2C3");
    assert_eq!(exchange.result.unwrap(), (exchange.client_id, "127.0.0.1:25575".to_string()));
}

#[test]
fn the_states_follow_one_another() {
    let mut session = LinkSession::begin("127.0.0.1:25575", "A1B2C3");
    assert_eq!(session.state, LinkState::Disconnected);
    assert!(matches!(session.step(LinkEvent::Start), Some(LinkAction::Open { .. })));
    assert_eq!(session.state, LinkState::Connecting);
    assert!(matches!(session.step(LinkEvent::Sent), Some(LinkAction::Receive)));
    assert_eq!(session.state, LinkState::AwaitingAck);
    let last = session.step(LinkEvent::Received(ACCEPTANCE.to_string()));
    assert!(matches!(last, Some(LinkAction::Finish(Ok(_)))));
    assert_eq!(session.state, LinkState::Linked);
}

#[test]
fn a_failure_to_connect_or_send_is_an_io_error() {
    let mut session = started("127.0.0.1:25575", "A1B2C3");
    match session.step(LinkEvent::TransportFailed(broken_pipe())) {
        Some(LinkAction::Finish(Err(MineChatError::Io(cause)))) => {
            assert_eq!(cause.kind(), std::io::ErrorKind::BrokenPipe);
            assert_eq!(cause.to_string(), "pipe");
        }
        other => panic!("not an I/O failure: {:?}", other),
    }
    assert_eq!(session.state, LinkState::Failed);
}

#[test]
fn a_failure_to_read_is_an_io_error() {
    let mut session = awaiting("127.0.0.1:25575", "A1B2C3");
    match session.step(LinkEvent::TransportFailed(broken_pipe())) {
        Some(LinkAction::Finish(Err(MineChatError::Io(cause)))) => {
            assert_eq!(cause.kind(), std::io::ErrorKind::BrokenPipe);
        }
        other => panic!("not an I/O failure: {:?}", other),
    }
    assert_eq!(session.state, LinkState::Failed);
}

#[test]
fn an_event_out_of_place_changes_nothing() {
    let mut session = LinkSession::begin("127.0.0.1:25575", "A1B2C3");
    assert!(session.step(LinkEvent::Sent).is_none());
    assert!(session.step(LinkEvent::Received(ACCEPTANCE.to_string())).is_none());
    assert!(session.step(LinkEvent::TransportFailed(broken_pipe())).is_none());
    assert_eq!(session.state, LinkState::Disconnected);

    let mut session = started("127.0.0.1:25575", "A1B2C3");
    assert!(session.step(LinkEvent::Start).is_none());
    assert!(session.step(LinkEvent::Received(ACCEPTANCE.to_string())).is_none());
    assert_eq!(session.state, LinkState::Connecting);

    let mut session = awaiting("127.0.0.1:25575", "A1B2C3");
    assert!(session.step(LinkEvent::Start).is_none());
    assert!(session.step(LinkEvent::Sent).is_none());
    assert_eq!(session.state, LinkState::AwaitingAck);
}

#[test]
fn a_finished_attempt_takes_no_event() {
    let mut linked = awaiting("127.0.0.1:25575", "A1B2C3");
    linked.step(LinkEvent::Received(ACCEPTANCE.to_string()));
    let mut failed = awaiting("127.0.0.1:25575", "A1B2C3");
    failed.step(LinkEvent::Received(REJECTION.to_string()));
    assert_eq!(linked.state, LinkState::Linked);
    assert_eq!(failed.state, LinkState::Failed);
    for (session, state) in [(&mut linked, LinkState::Linked), (&mut failed, LinkState::Failed)] {
        assert!(session.step(LinkEvent::Start).is_none());
        assert!(session.step(LinkEvent::Sent).is_none());
        assert!(session.step(LinkEvent::Received(ACCEPTANCE.to_string())).is_none());
        assert!(session.step(LinkEvent::TransportFailed(broken_pipe())).is_none());
        assert_eq!(session.state, state);
    }
}

#[test]
fn an_attempt_keeps_its_parties() {
    let mut session = LinkSession::new(
        "123e4567-e89b-42d3-a456-426614174000".to_string(),
        "host:1".to_string(),
        "code".to_string(),
    );
    assert_eq!(session.state, LinkState::Disconnected);
    match session.step(LinkEvent::Start) {
        Some(LinkAction::Open { address, frame }) => {
            assert_eq!(address, "host:1");
            assert_eq!(
                frame,
                "{\"type\":\"AUTH\",\"payload\":{\"client_uuid\":\"123e4567-e89b-42d3-a456-426614174000\",\"link_code\":\"code\"}}\n"
            );
        }
        other => panic!("the attempt did not open a connection: {:?}", other),
    }
    session.step(LinkEvent::Sent);
    match session.step(LinkEvent::Received(ACCEPTANCE.to_string())) {
        Some(LinkAction::Finish(Ok(pair))) => assert_eq!(
            pair,
            ("123e4567-e89b-42d3-a456-426614174000".to_string(), "host:1".to_string())
        ),
        other => panic!("the attempt did not link: {:?}", other),
    }
    assert_eq!(session.client_id, "123e4567-e89b-42d3-a456-426614174000");
    assert_eq!(session.address, "host:1");
    assert_eq!(session.link_code, "code");
}

#[test]
fn a_reply_is_read_by_kind_and_status() {
    let id = "id".to_string();
    let address = "host:1".to_string();
    assert_eq!(
        interpret_reply(ack("success", "ignored"), id.clone(), address.clone()).unwrap(),
        (id.clone(), address.clone())
    );
    assert!(matches!(
        interpret_reply(ack("failure", "bad code"), id.clone(), address.clone()),
        Err(MineChatError::AuthFailed(text)) if text == "bad code"
    ));
    let chat = MineChatMessage::Chat { payload: ChatPayload { message: "success".to_string() } };
    assert!(matches!(
        interpret_reply(chat, id.clone(), address.clone()),
        Err(MineChatError::AuthFailed(text)) if text == "Unexpected response"
    ));
    let auth = MineChatMessage::Auth {
        payload: AuthPayload { client_uuid: "success".to_string(), link_code: String::new() },
    };
    assert!(matches!(
        interpret_reply(auth, id, address),
        Err(MineChatError::AuthFailed(text)) if text == "Unexpected response"
    ));
}

#[test]
fn the_form_of_an_identifier_is_checked_to_the_letter() {
    assert!(is_client_id("123e4567-e89b-42d3-a456-426614174000"));
    assert!(is_client_id("00000000-0000-0000-0000-000000000000"));
    assert!(is_client_id("ffffffff-ffff-ffff-ffff-ffffffffffff"));
    assert!(is_client_id("abcdef01-2345-6789-abcd-ef0123456789"));
    assert!(!is_client_id(""));
    assert!(!is_client_id("123e4567-e89b-42d3-a456-42661417400"));
    assert!(!is_client_id("123e4567-e89b-42d3-a456-4266141740000"));
    assert!(!is_client_id("123E4567-E89B-42D3-A456-426614174000"));
    assert!(!is_client_id("123e4567-e89b-42d3-a456-42661417400g"));
    assert!(!is_client_id("123e4567e89b-42d3-a456-4266141740000"));
    assert!(!is_client_id("123e4567-e89b-42d3-a456_426614174000"));
    assert!(!is_client_id("123e4567--e89b-42d3-a456-42661417400"));
    assert!(!is_client_id("------------------------------------"));
    assert!(!is_client_id("123e4567e89b42d3a456426614174000"));
    assert!(!is_client_id("{123e4567-e89b-42d3-a456-42661417400"));
    assert!(!is_client_id("123e4567-e89b-42d3-a456-42661417400\u{e9}"));
    assert!(!is_client_id("123e4567-e89b-42d3-a456-42661417400/"));
    assert!(!is_client_id("123e4567-e89b-42d3-a456-42661417400:"));
    assert!(!is_client_id("123e4567-e89b-42d3-a456-42661417400`"));
    assert!(!is_client_id(" 123e4567-e89b-42d3-a456-42661417400"));
}
