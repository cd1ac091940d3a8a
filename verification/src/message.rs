use tokio_tungstenite::tungstenite;
use vstd::prelude::*;

verus! {

/// The close frame of the `tungstenite` crate. It is carried along and
/// never looked into.
#[verifier::external_type_specification]
#[verifier::external_body]
pub struct ExCloseFrame<'t>(tungstenite::protocol::CloseFrame<'t>);

/// The raw frame of the `tungstenite` crate. It is carried along and never
/// looked into.
#[verifier::external_type_specification]
#[verifier::external_body]
pub struct ExFrame(tungstenite::protocol::frame::Frame);

/// A message as it travels over the WebSocket channel.
#[derive(Debug, PartialEq)]
pub enum WebSocketMessage {
    /// A text message.
    Text(String),
    /// A binary message.
    Binary(Vec<u8>),
    /// A ping with its payload.
    Ping(Vec<u8>),
    /// A pong with its payload.
    Pong(Vec<u8>),
    /// A close message with the optional close frame.
    Close(Option<tungstenite::protocol::CloseFrame<'static>>),
    /// A raw frame.
    Frame(tungstenite::protocol::frame::Frame),
}

/// What a [`WebSocketMessage`] holds.
#[verifier::ext_equal]
pub enum MessageModel {
    Text(Seq<char>),
    Binary(Seq<u8>),
    Ping(Seq<u8>),
    Pong(Seq<u8>),
    Close(Option<tungstenite::protocol::CloseFrame<'static>>),
    Frame(tungstenite::protocol::frame::Frame),
}

impl View for WebSocketMessage {
    type V = MessageModel;

    open spec fn view(&self) -> MessageModel {
        match self {
            WebSocketMessage::Text(data) => MessageModel::Text(data@),
            WebSocketMessage::Binary(data) => MessageModel::Binary(data@),
            WebSocketMessage::Ping(data) => MessageModel::Ping(data@),
            WebSocketMessage::Pong(data) => MessageModel::Pong(data@),
            WebSocketMessage::Close(frame) => MessageModel::Close(*frame),
            WebSocketMessage::Frame(frame) => MessageModel::Frame(*frame),
        }
    }
}

/// A message that is of interest to the user.
#[derive(Debug, PartialEq)]
pub enum Message {
    /// A text WebSocket message.
    Text(String),
    /// A binary WebSocket message.
    Binary(Vec<u8>),
}

/// What a [`Message`] holds.
#[verifier::ext_equal]
pub enum UserModel {
    Text(Seq<char>),
    Binary(Seq<u8>),
}

impl View for Message {
    type V = UserModel;

    open spec fn view(&self) -> UserModel {
        match self {
            Message::Text(data) => UserModel::Text(data@),
            Message::Binary(data) => UserModel::Binary(data@),
        }
    }
}

impl From<Message> for WebSocketMessage {
    fn from(message: Message) -> (result: Self) {
        match message {
            Message::Text(data) => WebSocketMessage::Text(data),
            Message::Binary(data) => WebSocketMessage::Binary(data),
        }
    }
}

impl vstd::std_specs::convert::FromSpecImpl<Message> for WebSocketMessage {
    open spec fn obeys_from_spec() -> bool {
        true
    }

    open spec fn from_spec(message: Message) -> Self {
        match message {
            Message::Text(data) => WebSocketMessage::Text(data),
            Message::Binary(data) => WebSocketMessage::Binary(data),
        }
    }
}

/// What `std` prints for a string under `{:?}`.
pub uninterp spec fn str_debug(s: Seq<char>) -> Seq<char>;

/// What `tungstenite` prints for a message under `{:?}`.
pub uninterp spec fn message_debug(message: MessageModel) -> Seq<char>;

/// `std::str::from_utf8`: succeeds on exactly the byte sequences that are
/// valid UTF-8, and yields the characters that they encode.
#[verifier::external_body]
fn str_from_utf8(bytes: &[u8]) -> (result: Option<&str>)
    ensures
        result is Some <==> vstd::utf8::valid_utf8(bytes@),
        result matches Some(s) ==> s@ == vstd::utf8::decode_utf8(bytes@),
{
    std::str::from_utf8(bytes).ok()
}

/// The `Debug` formatting that `std` gives to a string: what it prints
/// depends on the string's characters alone.
#[verifier::external_body]
fn format_str(s: &str) -> (result: String)
    ensures
        result@ == str_debug(s@),
{
    format!("{:?}", s)
}

/// The `Debug` formatting that `tungstenite` gives to its `Message`: what it
/// prints depends on the message alone.
#[verifier::external_body]
fn format_message(message: &WebSocketMessage) -> (result: String)
    ensures
        result@ == message_debug(message@),
{
    let message = match message {
        WebSocketMessage::Text(data) => tungstenite::Message::Text(data.clone()),
        WebSocketMessage::Binary(data) => tungstenite::Message::Binary(data.clone()),
        WebSocketMessage::Ping(data) => tungstenite::Message::Ping(data.clone()),
        WebSocketMessage::Pong(data) => tungstenite::Message::Pong(data.clone()),
        WebSocketMessage::Close(frame) => tungstenite::Message::Close(frame.clone()),
        WebSocketMessage::Frame(frame) => tungstenite::Message::Frame(frame.clone()),
    };
    format!("{:?}", message)
}

/// The text `name(field)`.
pub open spec fn tuple_text(name: Seq<char>, field: Seq<char>) -> Seq<char> {
    name + "("@ + field + ")"@
}

/// Format a named tuple of one field that has been formatted already.
pub fn debug_tuple(name: &str, field: &str) -> (result: String)
    ensures
        result@ == tuple_text(name@, field@),
{
    let mut result = name.to_owned();
    result.append("(");
    result.append(field);
    result.append(")");
    result
}

/// The debug representation of a message: a binary message that holds valid
/// UTF-8 is shown as the string that it encodes, and every other message the
/// way `tungstenite` shows it.
pub fn debug_message(message: &WebSocketMessage) -> (result: String)
    ensures
        result@ == (match message@ {
            MessageModel::Binary(data) if vstd::utf8::valid_utf8(data) => tuple_text(
                "Binary"@,
                str_debug(vstd::utf8::decode_utf8(data)),
            ),
            model => message_debug(model),
        }),
{
    if let WebSocketMessage::Binary(data) = message {
        if let Some(s) = str_from_utf8(data.as_slice()) {
            return debug_tuple("Binary", format_str(s).as_str());
        }
    }
    format_message(message)
}

} // verus!
