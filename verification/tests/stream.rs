//! The stream of bytes and the wrapper with fixed settings, driven against a
//! scripted channel.

use std::collections::VecDeque;
use std::time::Duration;
use tokio_tungstenite::tungstenite::error::ProtocolError;
use websocket_util::channel::{Error, ErrorKind, Progress, SinkCall, SinkReply};
use websocket_util::message::WebSocketMessage;
use websocket_util::poll::Poll;
use websocket_util::stream::{
    handle_msg, handle_reply, stream, stream_impl, ByteAction, ByteEvent, ByteStream, Message,
    Wrapper,
};
use websocket_util::wrap::{Action, Event, PingerCall, PingerReply};

/// What a wait for the channel ends with.
enum Occurrence {
    Item(Option<Result<WebSocketMessage, ProtocolError>>),
    Tick,
}

/// A channel that follows a script.
struct Script {
    /// What happens while the stream waits.
    occurrences: VecDeque<Occurrence>,
    /// What the next sending of a message fails with.
    failure: Option<ProtocolError>,
    /// The messages that were sent.
    outgoing: Vec<WebSocketMessage>,
}

type Item = Result<Vec<u8>, Error<ProtocolError>>;

fn script(occurrences: Vec<Occurrence>) -> Script {
    Script { occurrences: occurrences.into(), failure: None, outgoing: Vec::new() }
}

fn message(message: WebSocketMessage) -> Occurrence {
    Occurrence::Item(Some(Ok(message)))
}

fn text(data: &str) -> Occurrence {
    message(WebSocketMessage::Text(data.to_string()))
}

fn failed_pings() -> Error<ProtocolError> {
    Error::Io(ErrorKind::Other, "server failed to respond to pings".to_string())
}

impl Script {
    fn send(&mut self, message: WebSocketMessage) -> Result<(), ProtocolError> {
        match self.failure.take() {
            Some(err) => Err(err),
            None => {
                self.outgoing.push(message);
                Ok(())
            },
        }
    }

    /// The next item of the stream.
    fn next(&mut self, stream: &mut ByteStream) -> Option<Item> {
        let mut event = ByteEvent::Poll;
        loop {
            event = match stream.poll_next(event) {
                ByteAction::Wait => match self.occurrences.pop_front() {
                    Some(Occurrence::Item(item)) => ByteEvent::Next(item),
                    Some(Occurrence::Tick) => ByteEvent::Tick,
                    None => panic!("nothing happens any more"),
                },
                ByteAction::SendPong(message) => ByteEvent::PongSent(self.send(message)),
                ByteAction::SendPing(message) => ByteEvent::PingSent(self.send(message)),
                ByteAction::Yield(item) => return Some(item),
                ByteAction::End => return None,
            };
        }
    }

    /// All items of the stream.
    fn collect(&mut self, stream: &mut ByteStream) -> Vec<Item> {
        let mut items = Vec::new();
        while let Some(item) = self.next(stream) {
            items.push(item);
        }
        items
    }
}

#[test]
fn stream_no_messages() {
    let err = ProtocolError::ResetWithoutClosingHandshake;
    let mut script = script(vec![Occurrence::Item(Some(Err(err))), Occurrence::Item(None)]);
    let mut stream = stream();
    match script.next(&mut stream) {
        Some(Err(Error::Channel(e))) if e == ProtocolError::ResetWithoutClosingHandshake => (),
        e => panic!("received unexpected item: {:?}", e),
    }
    // The stream goes on, and reports the end of the channel.
    assert_eq!(script.next(&mut stream), Some(Err(Error::AlreadyClosed)));
}

#[test]
fn stream_direct_close() {
    let mut script = script(vec![message(WebSocketMessage::Close(None))]);
    let mut stream = stream();
    assert_eq!(script.collect(&mut stream), Vec::new());
    assert_eq!(script.next(&mut stream), None);
    assert_eq!(script.outgoing, Vec::new());
}

#[test]
fn decode_error_errors_do_not_terminate() {
    let mut script = script(vec![
        text("1337"),
        message(WebSocketMessage::Binary("42".to_string().into_bytes())),
        message(WebSocketMessage::Close(None)),
    ]);
    let messages = script.collect(&mut stream());

    let mut iter = messages.iter();
    assert_eq!(iter.next().unwrap().as_ref().unwrap(), &"1337".to_string().into_bytes());
    assert_eq!(iter.next().unwrap().as_ref().unwrap(), &"42".to_string().into_bytes());
    assert!(iter.next().is_none());
}

#[test]
fn stream_ping_pong() {
    let mut script = script(vec![
        message(WebSocketMessage::Ping(Vec::new())),
        message(WebSocketMessage::Close(None)),
    ]);
    assert_eq!(script.collect(&mut stream()), Vec::new());
    assert_eq!(script.outgoing, vec![WebSocketMessage::Pong(Vec::new())]);
}

#[test]
fn no_pongs() {
    let mut script = script(vec![
        text("test"),
        Occurrence::Tick,
        Occurrence::Tick,
        Occurrence::Tick,
    ]);
    let mut stream = stream_impl(Duration::from_millis(1));
    assert_eq!(script.next(&mut stream), Some(Ok(b"test".to_vec())));
    assert_eq!(script.next(&mut stream), Some(Err(failed_pings())));
    assert_eq!(script.outgoing, vec![WebSocketMessage::Ping(Vec::new())]);

    // That was it.
    assert_eq!(script.next(&mut stream), None);
}

#[test]
fn no_messages_dropped() {
    let mut script = script(vec![
        text("42"),
        Occurrence::Tick,
        message(WebSocketMessage::Pong(Vec::new())),
        text("43"),
        message(WebSocketMessage::Close(None)),
    ]);
    let messages = script.collect(&mut stream_impl(Duration::from_millis(10)));
    assert_eq!(
        messages,
        vec![Ok("42".to_string().into_bytes()), Ok("43".to_string().into_bytes())]
    );
}

/// A message between two intervals spares the peer the ping, and one after a
/// ping stands for the pong.
#[test]
fn stream_activity_spares_the_ping() {
    let pong = || message(WebSocketMessage::Pong(Vec::new()));
    let mut script = script(vec![
        Occurrence::Tick,
        pong(),
        Occurrence::Tick,
        text("a"),
        Occurrence::Tick,
        Occurrence::Tick,
        pong(),
        Occurrence::Tick,
        text("b"),
    ]);
    let mut stream = stream_impl(Duration::from_millis(10));
    assert_eq!(script.next(&mut stream), Some(Ok(b"a".to_vec())));
    assert_eq!(script.outgoing, Vec::new());
    assert_eq!(script.next(&mut stream), Some(Ok(b"b".to_vec())));
    assert_eq!(script.outgoing, vec![WebSocketMessage::Ping(Vec::new())]);
}

/// A text is handed out in its UTF-8 encoding.
#[test]
fn text_is_encoded() {
    let mut script = script(vec![text("\u{e4}\u{4e2d}")]);
    let item = script.next(&mut stream());
    assert_eq!(item, Some(Ok(vec![0xc3, 0xa4, 0xe4, 0xb8, 0xad])));
}

/// Failures to send are handed out and do not end the stream.
#[test]
fn failed_sends_do_not_terminate() {
    let failure = || Some(Err(Error::Channel(ProtocolError::SendAfterClosing)));

    let mut script = script(vec![
        message(WebSocketMessage::Ping(vec![1])),
        Occurrence::Tick,
        Occurrence::Tick,
        // The check of the connection starts anew.
        Occurrence::Tick,
        Occurrence::Tick,
        text("42"),
    ]);
    let mut stream = stream();
    script.failure = Some(ProtocolError::SendAfterClosing);
    assert_eq!(script.next(&mut stream), failure());
    script.failure = Some(ProtocolError::SendAfterClosing);
    assert_eq!(script.next(&mut stream), failure());
    assert_eq!(script.next(&mut stream), Some(Ok(b"42".to_vec())));
    assert_eq!(script.outgoing, vec![WebSocketMessage::Ping(Vec::new())]);
}

/// The connection is checked every 30 seconds unless told otherwise.
#[test]
fn stream_intervals() {
    assert_eq!(stream().ping_interval(), Duration::from_secs(30));
    let interval = Duration::from_millis(10);
    assert_eq!(stream_impl(interval).ping_interval(), interval);
}

/// Single messages are handled.
#[test]
fn messages_are_handled() {
    let handle = |message| handle_msg::<()>(Some(Ok(message)));
    assert_eq!(handle_msg::<()>(None), Progress::Done(Err(Error::AlreadyClosed)));
    assert_eq!(handle_msg(Some(Err("no"))), Progress::Done(Err(Error::Channel("no"))));
    assert_eq!(handle(WebSocketMessage::Close(None)), Progress::Done(Ok((None, true))));
    assert_eq!(
        handle(WebSocketMessage::Text("a".to_string())),
        Progress::Done(Ok((Some(vec![97]), false)))
    );
    assert_eq!(
        handle(WebSocketMessage::Binary(vec![1])),
        Progress::Done(Ok((Some(vec![1]), false)))
    );
    assert_eq!(
        handle(WebSocketMessage::Ping(vec![2])),
        Progress::Call(WebSocketMessage::Pong(vec![2]))
    );
    assert_eq!(handle(WebSocketMessage::Pong(vec![3])), Progress::Done(Ok((None, false))));
    assert_eq!(handle_reply::<()>(Ok(())), Ok((None, false)));
    assert_eq!(handle_reply(Err("no")), Err(Error::Channel("no")));
}

type Polled = Poll<Option<Result<Message, Error<ProtocolError>>>>;

/// Poll a wrapper of what the stream yields, once. The sink is always ready
/// and collects what it is handed.
fn poll(
    wrapper: &mut Wrapper<VecDeque<WebSocketMessage>>,
    outgoing: &mut Vec<WebSocketMessage>,
    mut passed: bool,
) -> Polled {
    let mut sink = |call| match call {
        SinkCall::PollReady => SinkReply::Ready(Poll::Ready(Ok(()))),
        SinkCall::StartSend(message) => {
            outgoing.push(message);
            SinkReply::Sent(Ok(()))
        },
        SinkCall::PollFlush => SinkReply::Flushed(Poll::Ready(Ok(()))),
    };
    let mut event = Event::Poll;
    loop {
        event = match wrapper.poll_next(event) {
            Action::Pong(call) => Event::Pong(sink(call)),
            Action::Ping(PingerCall::Queued(call)) => Event::Ping(PingerReply::Queued(sink(call))),
            Action::Ping(PingerCall::PollTick) => {
                let tick = if passed { Poll::Ready(()) } else { Poll::Pending };
                passed = false;
                Event::Ping(PingerReply::Tick(tick))
            },
            Action::Ping(PingerCall::ResetTick) => panic!("the interval runs on by itself"),
            Action::Ping(PingerCall::Fresh(call)) => Event::Ping(PingerReply::Fresh(sink(call))),
            Action::PollNext => match wrapper.channel_mut().pop_front() {
                Some(message) => Event::Next(Poll::Ready(Some(Ok(message)))),
                None => Event::Next(Poll::Pending),
            },
            Action::Reply(call) => Event::Reply(sink(call)),
            Action::Return(result) => return result,
        };
    }
}

/// The wrapper with fixed settings answers pings and filters messages.
#[test]
fn wrapper_answers_pings() {
    let mut incoming = VecDeque::new();
    incoming.push_back(WebSocketMessage::Ping(vec![1]));
    incoming.push_back(WebSocketMessage::Binary(vec![2]));
    let mut wrapper = Wrapper::with_default(incoming);
    assert_eq!(wrapper.ping_interval(), Some(Duration::from_secs(30)));

    let mut outgoing = Vec::new();
    let expected = Poll::Ready(Some(Ok(Message::Binary(vec![2]))));
    assert_eq!(poll(&mut wrapper, &mut outgoing, false), expected);
    assert_eq!(poll(&mut wrapper, &mut outgoing, false), Poll::Pending);
    assert_eq!(outgoing, vec![WebSocketMessage::Pong(vec![1])]);
}

/// The wrapper with fixed settings reports a silent server, again and again.
#[test]
fn wrapper_reports_silent_server() {
    let interval = Duration::from_millis(10);
    let mut wrapper = Wrapper::new(VecDeque::new(), interval);
    assert_eq!(wrapper.ping_interval(), Some(interval));

    let mut outgoing = Vec::new();
    assert_eq!(poll(&mut wrapper, &mut outgoing, true), Poll::Pending);
    assert_eq!(outgoing.len(), 0);
    for i in 1..5 {
        assert_eq!(poll(&mut wrapper, &mut outgoing, true), Poll::Pending);
        assert_eq!(outgoing.len(), i);
        let expected = Poll::Ready(Some(Err(failed_pings())));
        assert_eq!(poll(&mut wrapper, &mut outgoing, true), expected);
    }
}

/// The wrapper with fixed settings sends no ping after activity, and takes any
/// message for a pong.
#[test]
fn wrapper_activity_spares_the_ping() {
    let mut wrapper = Wrapper::new(VecDeque::new(), Duration::from_millis(10));
    let mut outgoing = Vec::new();
    for _ in 0..3 {
        wrapper.channel_mut().push_back(WebSocketMessage::Pong(Vec::new()));
        assert_eq!(poll(&mut wrapper, &mut outgoing, true), Poll::Pending);
    }
    assert_eq!(outgoing, Vec::new());

    assert_eq!(poll(&mut wrapper, &mut outgoing, true), Poll::Pending);
    assert_eq!(poll(&mut wrapper, &mut outgoing, true), Poll::Pending);
    assert_eq!(outgoing, vec![WebSocketMessage::Ping(Vec::new())]);
    wrapper.channel_mut().push_back(WebSocketMessage::Pong(Vec::new()));
    assert_eq!(poll(&mut wrapper, &mut outgoing, false), Poll::Pending);
    assert_eq!(poll(&mut wrapper, &mut outgoing, true), Poll::Pending);
    assert_eq!(outgoing.len(), 1);
}

/// The wrapper with fixed settings passes errors of the channel on.
#[test]
fn wrapper_reports_errors() {
    let interval = Duration::from_secs(1);
    let mut wrapper = Wrapper::new((), interval);
    let failed = Event::Next(Poll::Ready(Some(Err("failed"))));
    let expected = || Action::Return(Poll::Ready(Some(Err(Error::Channel("failed")))));
    assert_eq!(wrapper.poll_next(failed), expected());

    let failed = Event::Pong(SinkReply::Sent(Err("failed")));
    assert_eq!(wrapper.poll_next(failed), expected());
    assert_eq!(wrapper.ping_interval(), Some(interval));
}
