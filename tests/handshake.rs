use rusty_chat::protocol::client_handshake;
use rusty_chat::protocol::client_message;
use rusty_chat::protocol::client_packet::{Authenticate, Chat as ClientChat};
use rusty_chat::protocol::error::{HandshakeError, MessageParseError, MessageStreamError};
use rusty_chat::protocol::message::Message;
use rusty_chat::protocol::serializable::{Packet, Serializable};
use rusty_chat::protocol::server_handshake::{
    conclude, is_username_taken, receive_authentication, reply, Handshake, HandshakeArguments,
};
use rusty_chat::protocol::server_message;
use rusty_chat::protocol::server_packet::{Authenticated, Chat as ServerChat, End as ServerEnd};

fn authenticate(username: &str) -> Result<Message, MessageStreamError> {
    Ok(Authenticate::new(String::from(username)).to_message())
}

#[test]
fn server_handshake_refuses_taken_username() {
    let arguments = HandshakeArguments::new(vec![String::from("alice")]);
    let request = receive_authentication(authenticate("alice")).expect("an Authenticate request");
    let answer = reply(request, &arguments);
    assert_eq!(answer.response, ServerEnd::new(String::from("Username already taken")).to_message());
    let mut wire = vec![1, 2];
    wire.extend_from_slice("Username already taken".as_bytes());
    assert_eq!(answer.response.as_bytes(), wire);
    match conclude(Ok(()), answer.outcome) {
        Err(HandshakeError::AuthenticationFailed(reason)) => {
            assert_eq!(reason, "Username already taken")
        }
        other => panic!("expected an authentication failure, got {:?}", other),
    }
}

#[test]
fn server_handshake_admits_free_username() {
    let arguments = HandshakeArguments::new(vec![]);
    let request = receive_authentication(authenticate("bob")).expect("an Authenticate request");
    let answer = reply(request, &arguments);
    assert_eq!(answer.response, Authenticated::new().to_message());
    assert_eq!(answer.response.as_bytes(), vec![1, 0]);
    match conclude(Ok(()), answer.outcome) {
        Ok(handshake) => assert_eq!(handshake, Handshake::new(String::from("bob"))),
        other => panic!("expected success, got {:?}", other),
    }
}

#[test]
fn server_handshake_admits_username_not_among_taken() {
    let arguments = HandshakeArguments::new(vec![String::from("alice"), String::from("carol")]);
    assert!(is_username_taken(&arguments, &String::from("carol")));
    assert!(!is_username_taken(&arguments, &String::from("bob")));
    assert!(!is_username_taken(&arguments, &String::from("Alice")));
    let request = receive_authentication(authenticate("bob")).expect("an Authenticate request");
    assert!(matches!(reply(request, &arguments).outcome, Ok(h) if h.username == "bob"));
}

#[test]
fn server_handshake_rejects_other_requests() {
    let chat = ClientChat::new(String::from("hi")).to_message();
    match receive_authentication(Ok(chat.clone())) {
        Err(HandshakeError::UnexpectedMessage(message)) => assert_eq!(message, chat),
        other => panic!("expected an unexpected-message error, got {:?}", other),
    }
    let from_server = Authenticated::new().to_message();
    assert!(matches!(
        receive_authentication(Ok(from_server)),
        Err(HandshakeError::UnexpectedMessage(_))
    ));
}

#[test]
fn server_handshake_passes_stream_errors_on() {
    let failed = Err(MessageStreamError::MessageParseError(MessageParseError::MessageEmpty));
    match receive_authentication(failed) {
        Err(HandshakeError::MessageStreamError(MessageStreamError::MessageParseError(e))) => {
            assert_eq!(e, MessageParseError::MessageEmpty)
        }
        other => panic!("expected a stream error, got {:?}", other),
    }
    let write_failed = Err(MessageStreamError::IoError(std::io::Error::new(
        std::io::ErrorKind::BrokenPipe,
        "gone",
    )));
    let outcome = Ok(Handshake::new(String::from("bob")));
    assert!(matches!(
        conclude(write_failed, outcome),
        Err(HandshakeError::MessageStreamError(MessageStreamError::IoError(_)))
    ));
}

#[test]
fn client_handshake_rejects_chat_reply() {
    let chat = ServerChat::new(String::from("eve"), String::from("hello")).to_message();
    match client_handshake::receive_authentication_result(Ok(chat.clone())) {
        Err(HandshakeError::UnexpectedMessage(message)) => assert_eq!(message, chat),
        other => panic!("expected an unexpected-message error, got {:?}", other),
    }
    let client_chat = Message::Client(client_message::Message::Chat(ClientChat::new(String::from("x"))));
    match client_handshake::receive_authentication_result(Ok(client_chat.clone())) {
        Err(HandshakeError::UnexpectedMessage(message)) => assert_eq!(message, client_chat),
        other => panic!("expected an unexpected-message error, got {:?}", other),
    }
}

#[test]
fn client_handshake_end_is_refusal_with_reason() {
    let end = Message::Server(server_message::Message::End(ServerEnd::new(String::from("nope"))));
    match client_handshake::receive_authentication_result(Ok(end)) {
        Err(HandshakeError::AuthenticationFailed(reason)) => assert_eq!(reason, "nope"),
        other => panic!("expected an authentication failure, got {:?}", other),
    }
}

#[test]
fn client_handshake_succeeds_on_authenticated() {
    let arguments = client_handshake::HandshakeArguments::new(String::from("dave"));
    let request = client_handshake::authentication_request(&arguments);
    assert_eq!(request.as_bytes(), vec![0, 0, b'd', b'a', b'v', b'e']);
    let result = client_handshake::receive_authentication_result(Ok(Authenticated::new().to_message()));
    match client_handshake::conclude(arguments, result) {
        Ok(handshake) => assert_eq!(handshake.username, "dave"),
        other => panic!("expected success, got {:?}", other),
    }
}
