use minechat_protocol::protocol::{
    AuthAckPayload, AuthPayload, BroadcastPayload, ChatPayload, DisconnectPayload, MineChatError,
    MineChatMessage,
};

fn one_of_each() -> Vec<MineChatMessage> {
    vec![
        MineChatMessage::Auth {
            payload: AuthPayload { client_uuid: "id".to_string(), link_code: "code".to_string() },
        },
        MineChatMessage::AuthAck {
            payload: AuthAckPayload {
                status: "success".to_string(),
                message: "ok".to_string(),
                minecraft_uuid: Some("uuid".to_string()),
                username: None,
            },
        },
        MineChatMessage::Chat { payload: ChatPayload { message: "hi".to_string() } },
        MineChatMessage::Broadcast {
            payload: BroadcastPayload { from: "a".to_string(), message: "b".to_string() },
        },
        MineChatMessage::Disconnect { payload: DisconnectPayload { reason: "bye".to_string() } },
    ]
}

#[test]
fn each_kind_has_its_tag() {
    let tags: Vec<&str> = one_of_each().iter().map(|message| message.tag()).collect();
    assert_eq!(tags, vec!["AUTH", "AUTH_ACK", "CHAT", "BROADCAST", "DISCONNECT"]);
}

#[test]
fn a_clone_equals_its_source() {
    for message in &one_of_each() {
        assert_eq!(&message.clone(), message);
    }
    let payload = AuthAckPayload {
        status: "failure".to_string(),
        message: "no".to_string(),
        minecraft_uuid: None,
        username: Some("Alex".to_string()),
    };
    assert_eq!(payload.clone(), payload);
}

#[test]
fn messages_differ_by_kind_and_by_field() {
    let all = one_of_each();
    for (i, first) in all.iter().enumerate() {
        for (j, second) in all.iter().enumerate() {
            assert_eq!(first == second, i == j);
        }
    }
    let chat = MineChatMessage::Chat { payload: ChatPayload { message: "hi".to_string() } };
    let other = MineChatMessage::Chat { payload: ChatPayload { message: "ho".to_string() } };
    assert_ne!(chat, other);
}

#[test]
fn a_transport_error_becomes_io() {
    let cause = std::io::Error::new(std::io::ErrorKind::ConnectionReset, "reset");
    match MineChatError::from(cause) {
        MineChatError::Io(inner) => {
            assert_eq!(inner.kind(), std::io::ErrorKind::ConnectionReset);
            assert_eq!(inner.to_string(), "reset");
        }
        other => panic!("not an I/O error: {:?}", other),
    }
}

#[test]
fn a_json_error_becomes_serde() {
    let cause = serde_json::from_str::<serde_json::Value>("{").unwrap_err();
    let text = cause.to_string();
    match MineChatError::from(cause) {
        MineChatError::Serde(inner) => assert_eq!(inner.to_string(), text),
        other => panic!("not a JSON error: {:?}", other),
    }
}

#[test]
fn an_identifier_error_becomes_uuid() {
    let cause = uuid::Uuid::parse_str("not an identifier").unwrap_err();
    let text = cause.to_string();
    match MineChatError::from(cause) {
        MineChatError::Uuid(inner) => assert_eq!(inner.to_string(), text),
        other => panic!("not an identifier error: {:?}", other),
    }
}

#[test]
fn the_question_mark_converts_the_outside_errors() {
    fn read(text: &str) -> Result<serde_json::Value, MineChatError> {
        Ok(serde_json::from_str::<serde_json::Value>(text)?)
    }
    fn fail() -> Result<(), MineChatError> {
        Err(std::io::Error::new(std::io::ErrorKind::NotFound, "gone"))?;
        Ok(())
    }
    assert!(matches!(read("]"), Err(MineChatError::Serde(_))));
    assert!(read("[]").is_ok());
    assert!(matches!(fail(), Err(MineChatError::Io(_))));
}

#[test]
fn the_kinds_kept_for_callers_carry_what_they_are_given() {
    let unlinked = MineChatError::ServerNotLinked;
    assert!(matches!(unlinked, MineChatError::ServerNotLinked));
    let config = MineChatError::ConfigError("no address".to_string());
    assert!(matches!(&config, MineChatError::ConfigError(text) if text == "no address"));
    let refused = MineChatError::AuthFailed("bad code".to_string());
    assert!(matches!(&refused, MineChatError::AuthFailed(text) if text == "bad code"));
    assert!(matches!(MineChatError::Disconnected, MineChatError::Disconnected));
}
