//! Message streams and subscriptions, driven against scripted messages.

use futures::executor::block_on;
use std::collections::VecDeque;
use websocket_util::poll::Poll;
use websocket_util::subscribe::{
    drive, drive_checked, subscribe, Arrival, Classification, DriveEvent, Message, MessageStream,
    Next, Notification, Request, RequestAction, SharedState, Subscription,
};

/// A "dummy" message type used for testing.
#[derive(Debug)]
enum MockMessage<T> {
    /// The actual user visible message.
    Value(T),
    /// A "control" message.
    Close(u8),
}

impl<T> Message for MockMessage<T> {
    type UserMessage = T;
    type ControlMessage = u8;

    fn classify(self) -> Classification<Self::UserMessage, Self::ControlMessage> {
        match self {
            MockMessage::Value(x) => Classification::UserMessage(x),
            MockMessage::Close(x) => Classification::ControlMessage(x),
        }
    }

    fn is_error(_user_message: &Self::UserMessage) -> bool {
        // In this implementation there are no errors.
        false
    }
}

/// A message that comes with nested errors.
#[derive(Debug)]
struct Fallible<T>(Result<Result<MockMessage<T>, String>, u64>);

impl<T> Message for Fallible<T> {
    type UserMessage = Result<Result<T, String>, u64>;
    type ControlMessage = u8;

    fn classify(self) -> Classification<Self::UserMessage, Self::ControlMessage> {
        match self.0 {
            Ok(Ok(MockMessage::Value(x))) => Classification::UserMessage(Ok(Ok(x))),
            Ok(Ok(MockMessage::Close(x))) => Classification::ControlMessage(x),
            // Inner errors (e.g., JSON errors) are directly reported as
            // errors.
            Ok(Err(err)) => Classification::UserMessage(Ok(Err(err))),
            // We push through outer errors (simulating websocket errors) as
            // user messages.
            Err(err) => Classification::UserMessage(Err(err)),
        }
    }

    fn is_error(user_message: &Self::UserMessage) -> bool {
        // We only report inner errors as errors for the sake of testing.
        user_message.as_ref().map(|inner| inner.is_err()).unwrap_or(false)
    }
}

/// The messages that a stream yields before it ends.
type Queue<M> = VecDeque<M>;

type Stream<M> = MessageStream<Queue<M>, M>;

type Control<M> = Subscription<Option<Vec<M>>, M, M>;

/// Poll a message stream for the next user message.
fn next<M>(
    stream: &mut Stream<M>,
    shared: &mut SharedState<M::ControlMessage>,
) -> Option<M::UserMessage>
where
    M: Message,
{
    loop {
        let step = Stream::<M>::poll_next(Poll::Ready(stream.stream.pop_front()));
        if let Some(message) = step.inform {
            if let Some(delivery) = Stream::<M>::inform_subscription(shared, message) {
                let _ = delivery.complete();
            }
        }
        match step.next {
            Next::PollNext => (),
            Next::Return(Poll::Ready(item)) => return item,
            Next::Return(Poll::Pending) => panic!("the stream is never pending"),
        }
    }
}

/// See a request through, with the message stream polled on the side. The
/// sink is closed when there is no place to put a message.
fn complete<M>(
    stream: &mut Stream<M>,
    sink: &mut Option<Vec<M>>,
    shared: &mut SharedState<M::ControlMessage>,
    request: Request<M, M::ControlMessage, ()>,
) -> Result<Result<Notification<M::ControlMessage>, ()>, M::UserMessage>
where
    M: Message,
{
    assert!(request.previous.is_none());
    let mut receiver = request.receiver;
    let mut action = request.action;
    loop {
        action = match action {
            RequestAction::Send(item) => {
                let result = match sink {
                    Some(items) => {
                        items.push(item);
                        Ok(())
                    },
                    None => Err(()),
                };
                Control::<M>::sent(shared, result)
            },
            RequestAction::Receive => {
                let event = match receiver.try_recv() {
                    Ok(Some(message)) => DriveEvent::Output(Ok(message)),
                    Ok(None) => DriveEvent::Stream(next(stream, shared)),
                    Err(err) => DriveEvent::Output(Err(err)),
                };
                match drive::<M, _>(event) {
                    Some(Ok(received)) => Control::<M>::received(received),
                    Some(Err(message)) => return Err(message),
                    None => RequestAction::Receive,
                }
            },
            RequestAction::Return(result) => return Ok(result),
        };
    }
}

fn values() -> Queue<MockMessage<u64>> {
    VecDeque::from([
        MockMessage::Value(1u64),
        MockMessage::Value(2u64),
        MockMessage::Value(3u64),
        MockMessage::Close(200),
        MockMessage::Close(201),
        MockMessage::Value(4u64),
    ])
}

/// Check that we can send a message through a `Subscription` and receive back
/// the expected control message response.
#[test]
fn send_recv() {
    let (mut stream, mut subscription, mut shared) =
        subscribe::<MockMessage<u64>, MockMessage<u64>, _, _>(values(), Some(Vec::new()));
    let request = Control::<MockMessage<u64>>::send(&mut shared, MockMessage::Close(42));
    let message = complete(&mut stream, &mut subscription.sink, &mut shared, request)
        .unwrap()
        .unwrap();

    // We should have received back the first "control" message that we fed
    // into the stream, which has the payload 200.
    assert_eq!(message, Some(Ok(200)));
    assert!(shared.is_idle());
    match subscription.sink.unwrap().as_slice() {
        [MockMessage::Close(42)] => (),
        items => panic!("unexpected items were sent: {:?}", items),
    }
}

/// Check that we can wait for a control message without sending anything
/// beforehand.
#[test]
fn read() {
    let (mut stream, mut subscription, mut shared) =
        subscribe::<MockMessage<u64>, MockMessage<u64>, _, _>(values(), Some(Vec::new()));
    let request = Control::<MockMessage<u64>>::read(&mut shared);
    let message = complete(&mut stream, &mut subscription.sink, &mut shared, request)
        .unwrap()
        .unwrap();

    assert_eq!(message, Some(Ok(200)));
    assert!(shared.is_idle());
    assert!(subscription.sink.unwrap().is_empty());

    // The other control message came while nothing was expected. All that
    // is left for another request is the end of the stream.
    let request = Control::<MockMessage<u64>>::read(&mut shared);
    let message = complete(&mut stream, &mut None, &mut shared, request);
    assert_eq!(message, Ok(Ok(None)));
}

/// Check that `Subscription::send` behaves correctly if the associated
/// message stream gets dropped.
#[test]
fn stream_drop() {
    // With the stream gone, there is no one to take what the sink is handed.
    let (mut stream, mut subscription, mut shared) =
        subscribe::<MockMessage<u64>, MockMessage<u64>, _, _>(VecDeque::new(), None);

    let request = Control::<MockMessage<u64>>::send(&mut shared, MockMessage::Close(42));
    let result = complete(&mut stream, &mut subscription.sink, &mut shared, request);
    assert!(result.unwrap().is_err());
    assert!(shared.is_idle());

    // Try another time to make sure that we do not leave any state
    // invariant-violating state behind.
    let request = Control::<MockMessage<u64>>::send(&mut shared, MockMessage::Close(41));
    let result = complete(&mut stream, &mut subscription.sink, &mut shared, request);
    assert!(result.unwrap().is_err());
    assert!(shared.is_idle());
}

/// Check that `Subscription::send` behaves correctly if the underlying
/// control channel gets closed.
#[test]
fn control_channel_closed() {
    let (_stream, _subscription, mut shared) =
        subscribe::<MockMessage<u64>, MockMessage<u64>, _, _>((), ());

    for item in [42, 41] {
        let request =
            Control::<MockMessage<u64>>::send::<&str>(&mut shared, MockMessage::Close(item));
        assert!(request.previous.is_none());
        assert!(matches!(request.action, RequestAction::Send(MockMessage::Close(i)) if i == item));
        assert!(!shared.is_idle());
        let closed = Control::<MockMessage<u64>>::sent(&mut shared, Err("closed"));
        assert!(matches!(closed, RequestAction::Return(Err("closed"))));
        assert!(shared.is_idle());
    }
}

/// Check that a `MessageStream` behaves correctly if its associated
/// `Subscription` has been dropped.
#[test]
fn stream_processing_with_dropped_subscription() {
    let messages = VecDeque::from([
        MockMessage::Value(1u64),
        MockMessage::Close(200),
        MockMessage::Value(4u64),
    ]);
    let (mut stream, subscription, mut shared) =
        subscribe::<MockMessage<u64>, MockMessage<u64>, _, _>(messages, None::<Vec<MockMessage<u64>>>);
    drop(Control::<MockMessage<u64>>::read::<()>(&mut shared));
    drop(subscription);

    let mut vec = Vec::new();
    while let Some(message) = next(&mut stream, &mut shared) {
        vec.push(message);
    }
    assert_eq!(vec, vec![1u64, 4u64]);
}

/// Send a message, and return what comes back.
fn send_fallible(
    messages: Queue<Fallible<u64>>,
) -> Result<Result<Notification<u8>, ()>, Result<Result<u64, String>, u64>> {
    let (mut stream, mut subscription, mut shared) =
        subscribe::<Fallible<u64>, Fallible<u64>, _, _>(messages, Some(Vec::new()));
    let request = Control::<Fallible<u64>>::send(&mut shared, Fallible(Ok(Ok(MockMessage::Close(42)))));
    complete(&mut stream, &mut subscription.sink, &mut shared, request)
}

/// Make sure that event with nested errors sending and receiving type checks
/// and works.
#[test]
fn send_recv_with_errors() {
    let messages = values().into_iter().map(|message| Fallible(Ok(Ok(message)))).collect();
    let message = send_fallible(messages).unwrap().unwrap();

    // We should have received back the first "control" message that we fed
    // into the stream, which has the payload 200.
    assert_eq!(message, Some(Ok(200)));
}

/// Check that inner errors are pushed to the subscription properly.
#[test]
fn inner_error() {
    let messages = VecDeque::from([
        Fallible(Ok(Ok(MockMessage::Value(1u64)))),
        Fallible(Ok(Err("error".to_string()))),
        Fallible(Ok(Ok(MockMessage::Close(200)))),
    ]);
    let message = send_fallible(messages).unwrap_err().unwrap();
    assert_eq!(message, Err("error".to_string()));
}

/// Check that outer errors are ignored by the subscription.
#[test]
fn outer_error() {
    let messages = VecDeque::from([
        Fallible(Ok(Ok(MockMessage::Value(1u64)))),
        Fallible(Err(1337)),
        Fallible(Ok(Ok(MockMessage::Close(200)))),
    ]);
    let message = send_fallible(messages).unwrap().unwrap();
    assert_eq!(message, Some(Ok(200)));
}

/// An error of the stream answers a request, but the stream yields it.
#[test]
fn error_is_notified() {
    let messages = VecDeque::from([Fallible::<u64>(Ok(Err("error".to_string())))]);
    let (mut stream, _subscription, mut shared) =
        subscribe::<Fallible<u64>, Fallible<u64>, _, _>(messages, None::<Vec<Fallible<u64>>>);
    let request = Control::<Fallible<u64>>::read::<()>(&mut shared);
    let item = next(&mut stream, &mut shared);
    assert_eq!(item, Some(Ok(Err("error".to_string()))));
    assert_eq!(block_on(request.receiver), Ok(Some(Err(()))));
    assert!(shared.is_idle());
}

/// The end of the stream answers a request.
#[test]
fn end_is_notified() {
    let (mut stream, _subscription, mut shared) =
        subscribe::<MockMessage<u64>, MockMessage<u64>, _, _>(VecDeque::new(), None::<Vec<MockMessage<u64>>>);
    let request = Control::<MockMessage<u64>>::read::<()>(&mut shared);
    assert_eq!(next(&mut stream, &mut shared), None);
    assert_eq!(block_on(request.receiver), Ok(None));
    assert!(shared.is_idle());
}

/// A notification reaches the request that was registered, and comes back if
/// there is no one to receive it.
#[test]
fn notifications_are_delivered() {
    let inform = MessageStream::<(), MockMessage<u64>>::inform_subscription;
    let mut shared = SharedState::new();
    assert!(inform(&mut shared, Some(Ok(1))).is_none());

    let request = Control::<MockMessage<u64>>::read::<()>(&mut shared);
    let delivery = inform(&mut shared, Some(Ok(2))).unwrap();
    assert!(delivery.sender.is_connected_to(&request.receiver));
    assert_eq!(delivery.message, Some(Ok(2)));
    assert_eq!(delivery.complete(), Ok(()));
    assert_eq!(block_on(request.receiver), Ok(Some(Ok(2))));
    assert!(inform(&mut shared, Some(Ok(3))).is_none());

    drop(Control::<MockMessage<u64>>::read::<()>(&mut shared));
    let delivery = inform(&mut shared, Some(Ok(4))).unwrap();
    assert_eq!(delivery.complete(), Err(Some(Ok(4))));
}

/// A request that takes the place of another one cancels it.
#[test]
fn later_request_takes_over() {
    let mut shared = SharedState::new();
    let first = Control::<MockMessage<u64>>::read::<()>(&mut shared);
    let second = Control::<MockMessage<u64>>::read::<()>(&mut shared);
    let previous = second.previous.unwrap();
    assert!(previous.is_connected_to(&first.receiver));
    drop(previous);

    let canceled = block_on(first.receiver);
    assert!(canceled.is_err());
    let action = Control::<MockMessage<u64>>::received::<()>(canceled);
    assert!(matches!(action, RequestAction::Return(Ok(None))));

    let sender = shared.withdraw().unwrap();
    assert!(sender.is_connected_to(&second.receiver));
    assert!(shared.is_idle());
    assert!(shared.register(sender).is_none());
    assert!(!shared.is_idle());
}

/// Everything that can be found in a stream of messages is dealt with.
#[test]
fn arrivals_are_dealt_with() {
    let step = Arrival::<u64, u8>::Pending.step();
    assert_eq!(step.inform, None);
    assert!(matches!(step.next, Next::Return(Poll::Pending)));

    let step = Arrival::<u64, u8>::End.step();
    assert_eq!(step.inform, Some(None));
    assert!(matches!(step.next, Next::Return(Poll::Ready(None))));

    let step = Arrival::<u64, u8>::User(1, false).step();
    assert_eq!(step.inform, None);
    assert!(matches!(step.next, Next::Return(Poll::Ready(Some(1)))));

    let step = Arrival::<u64, u8>::User(2, true).step();
    assert_eq!(step.inform, Some(Some(Err(()))));
    assert!(matches!(step.next, Next::Return(Poll::Ready(Some(2)))));

    let step = Arrival::<u64, u8>::Control(3).step();
    assert_eq!(step.inform, Some(Some(Ok(3))));
    assert!(matches!(step.next, Next::PollNext));

    let step = MessageStream::<(), MockMessage<u64>>::poll_next(Poll::Pending);
    assert_eq!(step.inform, None);
    assert!(matches!(step.next, Next::Return(Poll::Pending)));
}

/// A future is driven until there is an output or an error.
#[test]
fn driving_ends_with_output_or_error() {
    assert_eq!(drive_checked::<u8, u8>(DriveEvent::Output(1), false), Some(Ok(1)));
    assert_eq!(drive_checked::<u8, u8>(DriveEvent::Stream(Some(2)), true), Some(Err(2)));
    assert_eq!(drive_checked::<u8, u8>(DriveEvent::Stream(Some(2)), false), None);
    assert_eq!(drive_checked::<u8, u8>(DriveEvent::Stream(None), true), None);
    assert_eq!(drive::<MockMessage<u64>, u8>(DriveEvent::Stream(Some(3))), None);
}
