//! Messages and their debug representation.

use tokio_tungstenite::tungstenite::protocol::frame::coding::CloseCode;
use tokio_tungstenite::tungstenite::protocol::frame::Frame;
use tokio_tungstenite::tungstenite::protocol::CloseFrame;
use tokio_tungstenite::tungstenite::Message as TungsteniteMessage;
use websocket_util::message::{debug_message, debug_tuple, Message, WebSocketMessage};

/// Check that we can show proper debug representation of WebSocket messages.
#[test]
fn debug_websocket_message() {
    let message = WebSocketMessage::Binary(b"this is a test".to_vec());
    let expected = r#"Binary("this is a test")"#;
    assert_eq!(debug_message(&message), expected);

    // Also try with some invalid Unicode.
    let message = WebSocketMessage::Binary([0xf0, 0x90, 0x80].to_vec());
    let expected = r#"Binary([240, 144, 128])"#;
    assert_eq!(debug_message(&message), expected);

    let message = WebSocketMessage::Ping(Vec::new());
    let expected = r#"Ping([])"#;
    assert_eq!(debug_message(&message), expected);
}

/// Quotes and control characters in a binary message are escaped.
#[test]
fn debug_binary_message_is_escaped() {
    let message = WebSocketMessage::Binary(b"a \"b\"\n".to_vec());
    assert_eq!(debug_message(&message), r#"Binary("a \"b\"\n")"#);

    let message = WebSocketMessage::Binary("\u{e4}\u{4e2d}".as_bytes().to_vec());
    assert_eq!(debug_message(&message), "Binary(\"\u{e4}\u{4e2d}\")");

    let message = WebSocketMessage::Binary(Vec::new());
    assert_eq!(debug_message(&message), r#"Binary("")"#);
}

/// Byte sequences that are not UTF-8 are shown as numbers.
#[test]
fn debug_invalid_utf8() {
    // An overlong encoding, a surrogate, and a stray continuation byte.
    for data in [vec![0xc0, 0x80], vec![0xed, 0xa0, 0x80], vec![0x61, 0x80]] {
        let expected = format!("Binary({:?})", data);
        assert_eq!(debug_message(&WebSocketMessage::Binary(data)), expected);
    }
}

/// Everything but a binary message is shown the way `tungstenite` does.
#[test]
fn debug_other_messages() {
    let text = WebSocketMessage::Text("42".to_string());
    assert_eq!(debug_message(&text), r#"Text("42")"#);

    let pong = WebSocketMessage::Pong(vec![1, 2]);
    assert_eq!(debug_message(&pong), "Pong([1, 2])");

    let close = WebSocketMessage::Close(None);
    assert_eq!(debug_message(&close), "Close(None)");

    let frame = CloseFrame { code: CloseCode::Normal, reason: "bye".into() };
    let close = WebSocketMessage::Close(Some(frame));
    assert_eq!(
        debug_message(&close),
        r#"Close(Some(CloseFrame { code: Normal, reason: "bye" }))"#
    );

    let expected = format!("{:?}", TungsteniteMessage::Frame(Frame::pong(vec![3])));
    let frame = WebSocketMessage::Frame(Frame::pong(vec![3]));
    assert_eq!(debug_message(&frame), expected);
}

/// A tuple is its name with its field in parentheses.
#[test]
fn tuples_are_formatted() {
    assert_eq!(debug_tuple("Binary", "[1]"), "Binary([1])");
    assert_eq!(debug_tuple("", ""), "()");
}

/// What a user sends goes over the channel as it is.
#[test]
fn user_messages_are_converted() {
    assert_eq!(
        WebSocketMessage::from(Message::Text("42".to_string())),
        WebSocketMessage::Text("42".to_string())
    );
    assert_eq!(
        WebSocketMessage::from(Message::Binary(vec![4, 2])),
        WebSocketMessage::Binary(vec![4, 2])
    );
}
