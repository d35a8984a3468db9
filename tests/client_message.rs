use rusty_chat::protocol::client_message::Message;
use rusty_chat::protocol::client_packet::{Authenticate, Chat, End};
use rusty_chat::protocol::error::MessageParseError;
use rusty_chat::protocol::serializable::Serializable;

#[test]
fn client_message_authenticate_converts_correctly() {
    let username = String::from("Kitt3120");

    let authenticate = Authenticate::new(username);
    let authenticate_comparison_clone = authenticate.clone();

    let message = Message::Authenticate(authenticate);
    let bytes = message.as_bytes();

    let parsed_message = match Message::from_bytes(&bytes) {
        Ok(message) => message,
        Err(err) => panic!("Failed to parse message: {:?}", err),
    };

    assert_eq!(message.id(), parsed_message.id());
    if let Message::Authenticate(authenticate) = parsed_message {
        assert_eq!(authenticate, authenticate_comparison_clone);
    } else {
        panic!("Parsed message is not of type Message::Authenticate");
    }
}

#[test]
fn client_message_chat_converts_correctly() {
    let message_content = String::from("⚡");

    let chat = Chat::new(message_content);
    let chat_comparison_clone = chat.clone();

    let message = Message::Chat(chat);
    let bytes = message.as_bytes();

    let parsed_message = match Message::from_bytes(&bytes) {
        Ok(message) => message,
        Err(err) => panic!("Failed to parse message: {:?}", err),
    };

    assert_eq!(message.id(), parsed_message.id());
    if let Message::Chat(chat) = parsed_message {
        assert_eq!(chat, chat_comparison_clone);
    } else {
        panic!("Parsed message is not of type Message::Chat");
    }
}

#[test]
fn client_message_end_converts_correctly() {
    let reason = String::from("❌");

    let end = End::new(reason);
    let end_comparison_clone = end.clone();

    let message = Message::End(end);
    let bytes = message.as_bytes();

    let parsed_message = match Message::from_bytes(&bytes) {
        Ok(message) => message,
        Err(err) => panic!("Failed to parse message: {:?}", err),
    };

    assert_eq!(message.id(), parsed_message.id());
    if let Message::End(end) = parsed_message {
        assert_eq!(end, end_comparison_clone);
    } else {
        panic!("Parsed message is not of type Message::End");
    }
}

#[test]
fn message_message_authenticate_converts_correctly() {
    let username = String::from("Kitt3120");
    let username_comparison_clone = username.clone();

    let message = Message::Authenticate(Authenticate::new(username));
    let bytes = message.as_bytes();
    let parsed_message = match Message::from_bytes(&bytes) {
        Ok(message) => message,
        Err(err) => panic!("Failed to parse message: {:?}", err),
    };

    assert_eq!(message.id(), parsed_message.id());
    if let Message::Authenticate(authenticate) = parsed_message {
        assert_eq!(authenticate.username, username_comparison_clone);
    } else {
        panic!("Parsed message is not of type MessageKind::Authenticate");
    }
}

#[test]
fn client_message_bytes_are_kind_then_utf8() {
    let message = Message::Chat(Chat::new(String::from("hé")));
    assert_eq!(message.as_bytes(), vec![1, b'h', 0xc3, 0xa9]);
    let message = Message::Authenticate(Authenticate::new(String::from("bob")));
    assert_eq!(message.as_bytes(), vec![0, b'b', b'o', b'b']);
    let message = Message::End(End::new(String::from("x")));
    assert_eq!(message.as_bytes(), vec![2, b'x']);
}

#[test]
fn client_message_decode_empty_is_message_empty() {
    assert_eq!(Message::from_bytes(&[]), Err(MessageParseError::MessageEmpty));
}

#[test]
fn client_message_decode_unknown_kind() {
    assert_eq!(Message::from_bytes(&[3, b'a']), Err(MessageParseError::UnknownKind(3)));
    assert_eq!(Message::from_bytes(&[255]), Err(MessageParseError::UnknownKind(255)));
}

#[test]
fn client_message_kind_without_payload_is_empty() {
    assert_eq!(Message::from_bytes(&[0]), Err(MessageParseError::MessageEmpty));
    assert_eq!(Message::from_bytes(&[1]), Err(MessageParseError::MessageEmpty));
    assert_eq!(Message::from_bytes(&[2]), Err(MessageParseError::MessageEmpty));
}

#[test]
fn client_packet_invalid_utf8_names_the_field() {
    match Message::from_bytes(&[0, 0xff]) {
        Err(MessageParseError::StringParse(field, _)) => assert_eq!(field, "Username"),
        other => panic!("unexpected result: {:?}", other),
    }
    match Message::from_bytes(&[1, 0xc3]) {
        Err(MessageParseError::StringParse(field, _)) => assert_eq!(field, "Message"),
        other => panic!("unexpected result: {:?}", other),
    }
    match Message::from_bytes(&[2, 0x80]) {
        Err(MessageParseError::StringParse(field, _)) => assert_eq!(field, "Reason"),
        other => panic!("unexpected result: {:?}", other),
    }
}

#[test]
fn client_packets_decode_empty_buffer_as_empty() {
    assert_eq!(Authenticate::from_bytes(&[]), Err(MessageParseError::MessageEmpty));
    assert_eq!(Chat::from_bytes(&[]), Err(MessageParseError::MessageEmpty));
    assert_eq!(End::from_bytes(&[]), Err(MessageParseError::MessageEmpty));
}
