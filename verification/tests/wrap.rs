//! The wrapper, driven against a scripted channel.

use std::collections::VecDeque;
use std::time::Duration;
use tokio_tungstenite::tungstenite::error::ProtocolError;
use websocket_util::channel::{Error, ErrorKind, SinkCall, SinkReply};
use websocket_util::message::WebSocketMessage;
use websocket_util::poll::Poll;
use websocket_util::send::Overrun;
use websocket_util::wrap::{
    Action, Builder, Event, Message, PingerCall, PingerReply, Wrapper,
};

/// A channel and a timer that follow a script.
struct Script {
    /// What the stream yields; it is pending when there is nothing left.
    incoming: VecDeque<Option<Result<WebSocketMessage, ProtocolError>>>,
    /// What the timer answers; the interval has not passed when there is
    /// nothing left.
    ticks: VecDeque<bool>,
    /// Whether the sink can take a message.
    ready: bool,
    /// What the next operation on the sink fails with.
    failure: Option<ProtocolError>,
    /// The messages that the sink was handed.
    outgoing: Vec<WebSocketMessage>,
    /// How often the sink was flushed.
    flushes: usize,
    /// How often the interval was started over.
    resets: usize,
    /// The message overruns that the wrapper told of.
    overruns: Vec<Overrun<WebSocketMessage>>,
}

type Polled = Poll<Option<Result<Message, Error<ProtocolError>>>>;

fn script(incoming: Vec<WebSocketMessage>) -> Script {
    Script {
        incoming: incoming.into_iter().map(|message| Some(Ok(message))).collect(),
        ticks: VecDeque::new(),
        ready: true,
        failure: None,
        outgoing: Vec::new(),
        flushes: 0,
        resets: 0,
        overruns: Vec::new(),
    }
}

fn with_ticks(mut script: Script, ticks: &[bool]) -> Script {
    script.ticks = ticks.iter().copied().collect();
    script
}

fn text(data: &str) -> WebSocketMessage {
    WebSocketMessage::Text(data.to_string())
}

impl Script {
    fn sink(&mut self, call: SinkCall<WebSocketMessage>) -> SinkReply<ProtocolError> {
        let result = match self.failure.take() {
            Some(err) => Err(err),
            None => Ok(()),
        };
        match call {
            SinkCall::PollReady => {
                if result.is_ok() && !self.ready {
                    SinkReply::Ready(Poll::Pending)
                } else {
                    SinkReply::Ready(Poll::Ready(result))
                }
            },
            SinkCall::StartSend(message) => {
                self.outgoing.push(message);
                SinkReply::Sent(result)
            },
            SinkCall::PollFlush => {
                self.flushes += 1;
                SinkReply::Flushed(Poll::Ready(result))
            },
        }
    }
}

/// Poll the wrapper once.
fn poll(wrapper: &mut Wrapper<Script>) -> Polled {
    let mut event = Event::Poll;
    loop {
        let action = wrapper.poll_next(event);
        let overrun = wrapper.take_overrun();
        assert_eq!(wrapper.take_overrun(), None);
        let channel = wrapper.channel_mut();
        channel.overruns.extend(overrun);
        event = match action {
            Action::Pong(call) => Event::Pong(channel.sink(call)),
            Action::Ping(PingerCall::Queued(call)) => {
                Event::Ping(PingerReply::Queued(channel.sink(call)))
            },
            Action::Ping(PingerCall::PollTick) => {
                let passed = channel.ticks.pop_front().unwrap_or(false);
                let tick = if passed { Poll::Ready(()) } else { Poll::Pending };
                Event::Ping(PingerReply::Tick(tick))
            },
            Action::Ping(PingerCall::ResetTick) => {
                channel.resets += 1;
                Event::Ping(PingerReply::TickReset)
            },
            Action::Ping(PingerCall::Fresh(call)) => {
                Event::Ping(PingerReply::Fresh(channel.sink(call)))
            },
            Action::PollNext => match channel.incoming.pop_front() {
                Some(item) => Event::Next(Poll::Ready(item)),
                None => Event::Next(Poll::Pending),
            },
            Action::Reply(call) => Event::Reply(channel.sink(call)),
            Action::Return(result) => return result,
        };
    }
}

/// Poll the wrapper until its stream is pending or ends or fails, and return
/// the messages and the last result.
fn drain(wrapper: &mut Wrapper<Script>) -> (Vec<Message>, Polled) {
    let mut messages = Vec::new();
    loop {
        match poll(wrapper) {
            Poll::Ready(Some(Ok(message))) => messages.push(message),
            result => return (messages, result),
        }
    }
}

fn builder() -> Builder<Script> {
    Wrapper::builder().set_ping_interval(Some(Duration::from_millis(10)))
}

fn timeout() -> Polled {
    let text = "server failed to respond to pings".to_string();
    Poll::Ready(Some(Err(Error::Io(ErrorKind::TimedOut, text))))
}

/// Check that our `Wrapper` behaves correctly if no messages are sent at all.
#[test]
fn wrap_no_messages() {
    let mut channel = script(Vec::new());
    channel.incoming.push_back(Some(Err(ProtocolError::ResetWithoutClosingHandshake)));
    channel.incoming.push_back(None);

    let mut wrapper = builder().build(channel);
    let (messages, result) = drain(&mut wrapper);
    assert!(messages.is_empty());
    match result {
        Poll::Ready(Some(Err(Error::Channel(err))))
            if err == ProtocolError::ResetWithoutClosingHandshake => (),
        result => panic!("received unexpected result: {:?}", result),
    }
}

/// Check that our `Wrapper` handles a straight close without other messages
/// correctly.
#[test]
fn wrap_direct_close() {
    let mut channel = script(vec![WebSocketMessage::Close(None)]);
    channel.incoming.push_back(None);

    let mut wrapper = builder().build(channel);
    assert_eq!(drain(&mut wrapper), (Vec::new(), Poll::Ready(None)));
    assert_eq!(wrapper.channel_mut().outgoing, Vec::new());
}

/// Verify that ping requests are not acknowledged by our `Wrapper` unless the
/// feature is enabled.
#[test]
fn wrap_ping_pong() {
    let channel = script(vec![WebSocketMessage::Ping(Vec::new())]);
    let mut wrapper = Wrapper::builder().set_ping_interval(None).build(channel);
    assert_eq!(drain(&mut wrapper), (Vec::new(), Poll::Pending));
    assert_eq!(drain(&mut wrapper), (Vec::new(), Poll::Pending));
    assert_eq!(wrapper.channel_mut().outgoing, Vec::new());
    assert_eq!(wrapper.channel_mut().flushes, 0);
}

/// Verify that ping requests are acknowledged by pongs by our `Wrapper` (if
/// the feature is enabled).
#[test]
fn ping_pong_2() {
    let channel = script(vec![WebSocketMessage::Ping(Vec::new())]);
    let mut wrapper = Wrapper::builder().set_send_pongs(true).build(channel);
    assert_eq!(drain(&mut wrapper), (Vec::new(), Poll::Pending));
    assert_eq!(wrapper.channel_mut().outgoing, vec![WebSocketMessage::Pong(Vec::new())]);
    assert_eq!(wrapper.channel_mut().flushes, 0);

    // The pong is flushed by the next poll.
    assert_eq!(drain(&mut wrapper), (Vec::new(), Poll::Pending));
    assert_eq!(wrapper.channel_mut().outgoing.len(), 1);
    assert_eq!(wrapper.channel_mut().flushes, 1);
}

/// A pong carries the payload of the ping, and messages around the ping get
/// through.
#[test]
fn pong_carries_the_payload() {
    let channel = script(vec![
        text("a"),
        WebSocketMessage::Ping(vec![1, 2, 3]),
        WebSocketMessage::Binary(vec![4]),
    ]);
    let mut wrapper = builder().set_send_pongs(true).build(channel);
    let expected = vec![Message::Text("a".to_string()), Message::Binary(vec![4])];
    assert_eq!(drain(&mut wrapper), (expected, Poll::Pending));
    assert_eq!(wrapper.channel_mut().outgoing, vec![WebSocketMessage::Pong(vec![1, 2, 3])]);
}

/// A pong for which the sink is not ready is sent by a later poll, unless
/// another ping arrives before that.
#[test]
fn pong_waits_for_the_sink() {
    let mut channel = script(vec![
        WebSocketMessage::Ping(vec![1]),
        WebSocketMessage::Ping(vec![2]),
    ]);
    channel.ready = false;
    let mut wrapper = builder().set_send_pongs(true).build(channel);
    assert_eq!(poll(&mut wrapper), Poll::Pending);
    assert_eq!(poll(&mut wrapper), Poll::Pending);
    assert_eq!(wrapper.channel_mut().outgoing, Vec::new());

    wrapper.channel_mut().ready = true;
    assert_eq!(poll(&mut wrapper), Poll::Pending);
    assert_eq!(wrapper.channel_mut().outgoing, vec![WebSocketMessage::Pong(vec![2])]);
}

/// Check that a pong that could not be sent is told of when the next one
/// replaces it.
#[test]
fn unsent_pong_is_told_of() {
    let mut channel = script(vec![
        WebSocketMessage::Ping(vec![1]),
        WebSocketMessage::Ping(vec![2]),
        WebSocketMessage::Ping(vec![3]),
    ]);
    channel.ready = false;
    let mut wrapper = builder().set_send_pongs(true).build(channel);
    assert_eq!(poll(&mut wrapper), Poll::Pending);
    assert_eq!(wrapper.channel_mut().outgoing, Vec::new());
    let lost = vec![
        Overrun::Unsent(WebSocketMessage::Pong(vec![1])),
        Overrun::Unsent(WebSocketMessage::Pong(vec![2])),
    ];
    assert_eq!(wrapper.channel_mut().overruns, lost);
}

/// Check that a pong that was sent but not flushed is told of when the next
/// one replaces it.
#[test]
fn unflushed_pong_is_told_of() {
    let channel = script(vec![
        WebSocketMessage::Ping(vec![1]),
        WebSocketMessage::Ping(vec![2]),
    ]);
    let mut wrapper = builder().set_send_pongs(true).build(channel);
    assert_eq!(poll(&mut wrapper), Poll::Pending);
    let pongs = vec![WebSocketMessage::Pong(vec![1]), WebSocketMessage::Pong(vec![2])];
    assert_eq!(wrapper.channel_mut().outgoing, pongs);
    assert_eq!(wrapper.channel_mut().overruns, vec![Overrun::Unflushed]);
}

/// Check that a ping that could not be sent is told of when the next one
/// replaces it.
#[test]
fn unsent_ping_is_told_of() {
    let mut channel = with_ticks(script(Vec::new()), &[true, true, true, true]);
    channel.ready = false;
    let mut wrapper = builder().build(channel);
    assert_eq!(poll(&mut wrapper), Poll::Pending);
    assert_eq!(poll(&mut wrapper), Poll::Pending);
    assert_eq!(poll(&mut wrapper), timeout());
    assert_eq!(wrapper.channel_mut().overruns, Vec::new());
    assert_eq!(poll(&mut wrapper), Poll::Pending);
    assert_eq!(wrapper.channel_mut().outgoing, Vec::new());
    let lost = vec![Overrun::Unsent(WebSocketMessage::Ping(Vec::new()))];
    assert_eq!(wrapper.channel_mut().overruns, lost);
}

/// Check that nothing is told of where every message is sent and flushed.
#[test]
fn no_overruns_without_lost_messages() {
    let mut wrapper = builder().set_send_pongs(true).build(script(Vec::new()));
    for data in 0u8..3 {
        let ping = WebSocketMessage::Ping(vec![data]);
        wrapper.channel_mut().incoming.push_back(Some(Ok(ping)));
        assert_eq!(poll(&mut wrapper), Poll::Pending);
        assert_eq!(poll(&mut wrapper), Poll::Pending);
    }
    assert_eq!(wrapper.channel_mut().outgoing.len(), 3);
    assert_eq!(wrapper.channel_mut().flushes, 3);
    assert_eq!(wrapper.channel_mut().overruns, Vec::new());
}

/// Verify that pings are being sent by our `Wrapper`.
#[test]
fn pings_are_sent() {
    let mut wrapper = builder().build(script(Vec::new()));
    let mut answered = 0;
    for pings in [0, 1, 1, 2] {
        wrapper.channel_mut().ticks.push_back(true);
        assert_eq!(poll(&mut wrapper), Poll::Pending);

        // The server responds to each ping.
        if wrapper.channel_mut().outgoing.len() > answered {
            answered += 1;
            wrapper.channel_mut().incoming.push_back(Some(Ok(WebSocketMessage::Pong(Vec::new()))));
            assert_eq!(poll(&mut wrapper), Poll::Pending);
        }

        let outgoing = &wrapper.channel_mut().outgoing;
        assert_eq!(outgoing.len(), pings);
        assert!(outgoing.iter().all(|message| *message == WebSocketMessage::Ping(Vec::new())));
    }
}

/// Make sure that we do not get any ping bursts or erroneous ping timeouts
/// when polling is delayed: the interval is started over whenever it has
/// passed, so that a delay counts once.
#[test]
fn no_ping_bursts() {
    let mut wrapper = builder().build(with_ticks(script(Vec::new()), &[true, false, true, false]));
    for resets in [1, 1, 2, 2, 2] {
        assert_eq!(poll(&mut wrapper), Poll::Pending);
        assert_eq!(wrapper.channel_mut().resets, resets);
    }

    // We expect to have seen one ping.
    assert_eq!(wrapper.channel_mut().outgoing, vec![WebSocketMessage::Ping(Vec::new())]);
}

/// Verify that no pings are being sent by our `Wrapper` when the feature is
/// disabled.
#[test]
fn no_pings_are_sent_when_disabled() {
    let channel = with_ticks(script(Vec::new()), &[true; 20]);
    let mut wrapper = Wrapper::builder().set_ping_interval(None).build(channel);
    assert_eq!(wrapper.ping_interval(), None);
    for _ in 0..20 {
        assert_eq!(poll(&mut wrapper), Poll::Pending);
    }
    assert_eq!(wrapper.channel_mut().outgoing, Vec::new());
    assert_eq!(wrapper.channel_mut().ticks.len(), 20);
    assert_eq!(wrapper.channel_mut().resets, 0);
}

/// Check that we report an error when the server fails to respond to pings.
#[test]
fn no_pong_response() {
    let mut wrapper = builder().build(with_ticks(script(Vec::new()), &[true; 12]));
    assert_eq!(poll(&mut wrapper), Poll::Pending);

    // We should see a timeout error. We test repeatedly to make sure that we
    // continue pinging if errors are ignored by clients.
    for i in 0..5 {
        assert_eq!(poll(&mut wrapper), Poll::Pending);
        assert_eq!(poll(&mut wrapper), timeout());
        assert_eq!(wrapper.channel_mut().outgoing.len(), i + 1);
    }
}

/// Anything that arrives spares the server the ping, and the error.
#[test]
fn activity_spares_the_ping() {
    let mut wrapper = builder().build(with_ticks(script(Vec::new()), &[true; 10]));
    for _ in 0..5 {
        wrapper.channel_mut().incoming.push_back(Some(Ok(WebSocketMessage::Close(None))));
        assert_eq!(poll(&mut wrapper), Poll::Pending);
    }
    assert_eq!(wrapper.channel_mut().outgoing, Vec::new());

    // A ping is due, and is answered in time.
    assert_eq!(poll(&mut wrapper), Poll::Pending);
    assert_eq!(wrapper.channel_mut().outgoing, Vec::new());
    wrapper.channel_mut().incoming.push_back(Some(Ok(WebSocketMessage::Pong(Vec::new()))));
    assert_eq!(poll(&mut wrapper), Poll::Pending);
    assert_eq!(wrapper.channel_mut().outgoing, vec![WebSocketMessage::Ping(Vec::new())]);
    assert_eq!(poll(&mut wrapper), Poll::Pending);
    assert_eq!(wrapper.channel_mut().outgoing.len(), 1);
}

/// A failure to send a ping leaves the server due to be checked.
#[test]
fn failed_ping_is_tried_again() {
    let mut wrapper = builder().build(with_ticks(script(Vec::new()), &[true; 4]));
    assert_eq!(poll(&mut wrapper), Poll::Pending);

    wrapper.channel_mut().failure = Some(ProtocolError::SendAfterClosing);
    let failure = Poll::Ready(Some(Err(Error::Channel(ProtocolError::SendAfterClosing))));
    assert_eq!(poll(&mut wrapper), failure);
    assert_eq!(wrapper.channel_mut().outgoing, Vec::new());

    assert_eq!(poll(&mut wrapper), Poll::Pending);
    assert_eq!(wrapper.channel_mut().outgoing, vec![WebSocketMessage::Ping(Vec::new())]);
}

/// A failure to flush a ping or a pong ends the poll, and nothing else.
#[test]
fn failed_flush_is_reported() {
    let failure = || Poll::Ready(Some(Err(Error::Channel(ProtocolError::SendAfterClosing))));

    let channel = script(vec![WebSocketMessage::Ping(vec![9])]);
    let mut wrapper = builder().set_send_pongs(true).build(channel);
    assert_eq!(poll(&mut wrapper), Poll::Pending);
    wrapper.channel_mut().failure = Some(ProtocolError::SendAfterClosing);
    assert_eq!(poll(&mut wrapper), failure());
    assert_eq!(poll(&mut wrapper), Poll::Pending);
    assert_eq!(wrapper.channel_mut().flushes, 1);

    let mut wrapper = builder().build(with_ticks(script(Vec::new()), &[true, true]));
    assert_eq!(poll(&mut wrapper), Poll::Pending);
    assert_eq!(poll(&mut wrapper), Poll::Pending);
    wrapper.channel_mut().failure = Some(ProtocolError::SendAfterClosing);
    assert_eq!(poll(&mut wrapper), failure());
    assert_eq!(poll(&mut wrapper), Poll::Pending);
    assert_eq!(wrapper.channel_mut().flushes, 1);
}

/// Check that messages sent by the server are transported correctly.
#[test]
fn send_messages() {
    let mut channel = script(vec![
        text("42"),
        WebSocketMessage::Pong(Vec::new()),
        text("43"),
        WebSocketMessage::Close(None),
    ]);
    channel.incoming.push_back(None);

    let mut wrapper = builder().build(channel);
    let (messages, result) = drain(&mut wrapper);
    assert_eq!(
        messages,
        vec![Message::Text("42".to_string()), Message::Text("43".to_string())]
    );
    assert_eq!(result, Poll::Ready(None));
}

/// Stress test our `Wrapper` type's `Stream` part by sending excessive amount
/// of messages through it.
#[test]
fn stress_stream() {
    let mut seed = 1u32;
    let mut random = move |bound: u32| {
        seed = seed.wrapping_mul(1664525).wrapping_add(1013904223);
        (seed >> 16) % bound
    };

    let mut incoming = Vec::new();
    let mut expected = Vec::new();
    for _ in 0..50000 {
        let data = (0..random(32)).map(|_| random(256) as u8).collect::<Vec<u8>>();
        match random(5) {
            0 => incoming.push(WebSocketMessage::Pong(data)),
            i if i & 0x1 == 0 => {
                let string = data.iter().map(|b| char::from(*b)).collect::<String>();
                incoming.push(text(&string));
                expected.push(Message::Text(string));
            },
            _ => {
                incoming.push(WebSocketMessage::Binary(data.clone()));
                expected.push(Message::Binary(data));
            },
        }
    }
    incoming.push(WebSocketMessage::Close(None));
    let mut channel = script(incoming);
    channel.incoming.push_back(None);

    let mut wrapper = builder().build(channel);
    assert_eq!(drain(&mut wrapper), (expected, Poll::Ready(None)));
}

/// Pings are sent every 30 seconds by default, and pongs not at all.
#[test]
fn builder_defaults() {
    let channel = script(vec![WebSocketMessage::Ping(Vec::new())]);
    let mut wrapper = Wrapper::builder().build(channel);
    assert_eq!(wrapper.ping_interval(), Some(Duration::from_secs(30)));
    assert_eq!(poll(&mut wrapper), Poll::Pending);
    assert_eq!(wrapper.channel_mut().outgoing, Vec::new());

    let wrapper = Builder::default().build(script(Vec::new()));
    assert_eq!(wrapper.ping_interval(), Some(Duration::from_secs(30)));
}

/// The last setting counts, and settings do not affect each other.
#[test]
fn builder_settings() {
    let channel = script(vec![WebSocketMessage::Ping(vec![5])]);
    let mut wrapper = Wrapper::builder()
        .set_send_pongs(false)
        .set_ping_interval(None)
        .set_send_pongs(true)
        .set_ping_interval(Some(Duration::from_secs(7)))
        .build(channel);
    assert_eq!(wrapper.ping_interval(), Some(Duration::from_secs(7)));
    assert_eq!(poll(&mut wrapper), Poll::Pending);
    assert_eq!(wrapper.channel_mut().outgoing, vec![WebSocketMessage::Pong(vec![5])]);
}
