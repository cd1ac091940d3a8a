//! Low-level building blocks for controlling a WebSocket connection with an
//! embedded control channel through an external subscription object.
//!
//! A [`MessageStream`] and its [`Subscription`] communicate through a
//! [`SharedState`]. Whoever connects the two keeps it behind a lock, and holds
//! the lock for no longer than one call of a function here.

use crate::poll::Poll;
use futures::channel::oneshot::{Canceled, Receiver, Sender};
use std::marker::PhantomData;
use vstd::prelude::*;

verus! {

/// The sending half of a one-shot channel of the `futures` crate. It is
/// carried along and never looked into.
#[verifier::external_type_specification]
#[verifier::external_body]
#[verifier::reject_recursive_types(T)]
pub struct ExSender<T>(Sender<T>);

/// The receiving half of a one-shot channel of the `futures` crate. It is
/// carried along and never looked into.
#[verifier::external_type_specification]
#[verifier::external_body]
#[verifier::reject_recursive_types(T)]
pub struct ExReceiver<T>(Receiver<T>);

/// What the receiving half of a one-shot channel of the `futures` crate
/// yields when the sending half is dropped.
#[verifier::external_type_specification]
#[verifier::external_body]
pub struct ExCanceled(Canceled);

/// `oneshot::channel` creates the two halves of a new channel. Nothing is
/// claimed of them; that two halves belong together is expressed by saying
/// that one call returned both.
pub assume_specification<T>[ futures::channel::oneshot::channel::<T> ]() -> (halves: (Sender<T>, Receiver<T>));

/// `oneshot::Sender::send` passes a value on, or returns that same value if
/// the receiving half is gone.
pub assume_specification<T>[ Sender::<T>::send ](sender: Sender<T>, t: T) -> (result: Result<
    (),
    T,
>)
    ensures
        result matches Err(returned) ==> returned == t,
;

/// An enum for the possible classifications of a message.
#[derive(Debug)]
pub enum Classification<U, C> {
    /// A user message. When classified as such, the message is directly
    /// emitted by the `MessageStream` and the associated `Subscription` is
    /// not informed.
    UserMessage(U),
    /// A control message. Such a message is forwarded to the
    /// `Subscription`. It is never emitted by the `MessageStream`.
    ControlMessage(C),
}

/// A trait allowing our stream and subscription infrastructure to work with
/// messages.
pub trait Message {
    /// A message that is relevant to the user.
    type UserMessage;

    /// An internally used control message.
    type ControlMessage;

    /// Classify a message as a user-relevant message or a control message.
    fn classify(self) -> Classification<Self::UserMessage, Self::ControlMessage>;

    /// Check whether a user message is considered an error. Erroneous
    /// messages cause any ongoing [`Subscription::send`] or
    /// [`Subscription::read`] requests to result in an error.
    fn is_error(user_message: &Self::UserMessage) -> bool;
}

/// What a subscription is told in answer to a request: a control message, an
/// error, or the end of the message stream.
pub type Notification<C> = Option<Result<C, ()>>;

/// State shared between the message stream and the subscription.
///
/// This state is an optional one-shot channel that is set by the
/// subscription whenever it expects to receive a control message.
#[derive(Debug)]
#[verifier::reject_recursive_types(C)]
pub struct SharedState<C> {
    /// The sending half of the one-shot channel.
    sender: Option<Sender<Notification<C>>>,
}

/// A notification and the one-shot channel that it goes through.
#[derive(Debug)]
#[verifier::reject_recursive_types(C)]
pub struct Delivery<C> {
    /// The sending half of the one-shot channel.
    pub sender: Sender<Notification<C>>,
    /// The notification.
    pub message: Notification<C>,
}

impl<C> SharedState<C> {
    /// The one-shot channel through which the subscription expects to be
    /// notified.
    pub closed spec fn registered(self) -> Option<Sender<Notification<C>>> {
        self.sender
    }

    /// Create the state in which nothing is expected.
    pub fn new() -> (shared: Self)
        ensures
            shared.registered() is None,
    {
        SharedState { sender: None }
    }

    /// Check whether nothing is expected.
    pub fn is_idle(&self) -> (idle: bool)
        ensures
            idle == (self.registered() is None),
    {
        self.sender.is_none()
    }

    /// Expect to be notified through a one-shot channel, and return the one
    /// that was registered before, if any.
    pub fn register(&mut self, sender: Sender<Notification<C>>) -> (previous: Option<
        Sender<Notification<C>>,
    >)
        ensures
            final(self).registered() == Some(sender),
            previous == old(self).registered(),
    {
        let previous = self.sender.take();
        self.sender = Some(sender);
        previous
    }

    /// Expect nothing any more, and return the one-shot channel that was
    /// registered, if any.
    pub fn withdraw(&mut self) -> (previous: Option<Sender<Notification<C>>>)
        ensures
            final(self).registered() is None,
            previous == old(self).registered(),
    {
        self.sender.take()
    }
}

impl<C> Delivery<C> {
    /// Send the notification. It is handed back if the subscription does not
    /// exist any more.
    pub fn complete(self) -> (result: Result<(), Notification<C>>)
        ensures
            call_ensures(Sender::<Notification<C>>::send, (self.sender, self.message), result),
            result matches Err(returned) ==> returned == self.message,
    {
        self.sender.send(self.message)
    }
}

/// The delivery of a notification to a subscription that expects one through
/// the channel `registered`. One that expects nothing is not told anything.
pub open spec fn delivery_to<C>(
    registered: Option<Sender<Notification<C>>>,
    message: Notification<C>,
) -> Option<Delivery<C>> {
    match registered {
        Some(sender) => Some(Delivery { sender, message }),
        None => None,
    }
}

/// What has been found in the stream of messages.
#[derive(Debug)]
pub enum Arrival<U, C> {
    /// There is nothing at the moment.
    Pending,
    /// There will be nothing any more.
    End,
    /// A user message, and whether it is considered an error.
    User(U, bool),
    /// A control message.
    Control(C),
}

/// What a poll of a message stream does next.
#[derive(Debug)]
pub enum Next<U> {
    /// Poll the underlying stream again.
    PollNext,
    /// The poll is over, with this result.
    Return(Poll<Option<U>>),
}

/// What has to be done about something found in the stream of messages:
/// first the subscription is informed, if there is anything to tell it, and
/// then the poll goes on.
#[derive(Debug)]
pub struct Step<U, C> {
    /// What to tell the subscription.
    pub inform: Option<Notification<C>>,
    /// How to go on.
    pub next: Next<U>,
}

impl<U, C> Arrival<U, C> {
    /// What the subscription is told.
    pub open spec fn notification(self) -> Option<Notification<C>> {
        match self {
            Arrival::Pending => None,
            Arrival::End => Some(None),
            Arrival::User(_, true) => Some(Some(Err(()))),
            Arrival::User(_, false) => None,
            Arrival::Control(message) => Some(Some(Ok(message))),
        }
    }

    /// How the poll goes on.
    pub open spec fn next(self) -> Next<U> {
        match self {
            Arrival::Pending => Next::Return(Poll::Pending),
            Arrival::End => Next::Return(Poll::Ready(None)),
            Arrival::User(message, _) => Next::Return(Poll::Ready(Some(message))),
            Arrival::Control(_) => Next::PollNext,
        }
    }

    /// Whether this is what the stream's answer `item` is found to be.
    pub open spec fn found<M: Message<UserMessage = U, ControlMessage = C>>(
        self,
        item: Poll<Option<M>>,
    ) -> bool {
        match (item, self) {
            (Poll::Pending, Arrival::Pending) => true,
            (Poll::Ready(None), Arrival::End) => true,
            (Poll::Ready(Some(message)), Arrival::User(user_message, is_error)) => {
                &&& call_ensures(
                    M::classify,
                    (message,),
                    Classification::UserMessage(user_message),
                )
                &&& call_ensures(M::is_error, (&user_message,), is_error)
            },
            (Poll::Ready(Some(message)), Arrival::Control(control_message)) => call_ensures(
                M::classify,
                (message,),
                Classification::ControlMessage(control_message),
            ),
            _ => false,
        }
    }

    /// Determine what has to be done.
    pub fn step(self) -> (step: Step<U, C>)
        ensures
            step.inform == self.notification(),
            step.next == self.next(),
    {
        match self {
            // No new data is available yet.
            Arrival::Pending => Step { inform: None, next: Next::Return(Poll::Pending) },
            // The connection got terminated. We need to convey that to the
            // `Subscription`.
            Arrival::End => Step { inform: Some(None), next: Next::Return(Poll::Ready(None)) },
            Arrival::User(message, is_error) => Step {
                // If message classification deduced an error, inform the
                // subscription about that fact (to unblock requests) but
                // yield the actual error via the message stream.
                inform: if is_error {
                    Some(Some(Err(())))
                } else {
                    None
                },
                next: Next::Return(Poll::Ready(Some(message))),
            },
            // Push a control message to the subscription and then just
            // continue polling. Clients of the message stream do not care
            // about these.
            Arrival::Control(message) => Step {
                inform: Some(Some(Ok(message))),
                next: Next::PollNext,
            },
        }
    }
}

/// A stream of messages that is associated with a [`Subscription`].
#[derive(Debug)]
pub struct MessageStream<S, M> where M: Message {
    /// The internally used stream.
    pub stream: S,
    /// Phantom data for the message type.
    pub marker: PhantomData<M>,
}

impl<S, M> MessageStream<S, M> where M: Message {
    /// Determine what is to be sent to the associated [`Subscription`] to
    /// inform it about a message, if it is registered to receive such
    /// notifications. It is registered no more after that.
    pub fn inform_subscription(
        shared: &mut SharedState<M::ControlMessage>,
        message: Notification<M::ControlMessage>,
    ) -> (delivery: Option<Delivery<M::ControlMessage>>)
        ensures
            final(shared).registered() is None,
            delivery == delivery_to(old(shared).registered(), message),
    {
        match shared.withdraw() {
            Some(sender) => Some(Delivery { sender, message }),
            None => None,
        }
    }

    /// Carry a poll one step further, given what the underlying stream
    /// answered.
    pub fn poll_next(item: Poll<Option<M>>) -> (step: Step<M::UserMessage, M::ControlMessage>)
        ensures
            exists|arrival: Arrival<M::UserMessage, M::ControlMessage>| #[trigger]
                arrival.found(item) && step.inform == arrival.notification() && step.next
                    == arrival.next(),
    {
        let arrival = match item {
            Poll::Pending => Arrival::Pending,
            Poll::Ready(None) => Arrival::End,
            Poll::Ready(Some(message)) => match message.classify() {
                Classification::UserMessage(user_message) => {
                    let is_error = M::is_error(&user_message);
                    Arrival::User(user_message, is_error)
                },
                Classification::ControlMessage(control_message) => Arrival::Control(
                    control_message,
                ),
            },
        };
        assert(arrival.found(item));
        arrival.step()
    }
}

/// What a request asks for.
#[derive(Debug, PartialEq)]
pub enum RequestAction<I, C, E> {
    /// Send this item. What has come of it goes to [`Subscription::sent`].
    Send(I),
    /// Wait for the answer. What arrives goes to [`Subscription::received`].
    Receive,
    /// The request is over, with this result.
    Return(Result<Notification<C>, E>),
}

/// A request that a subscription has started.
#[derive(Debug)]
#[verifier::reject_recursive_types(C)]
pub struct Request<I, C, E> {
    /// The receiving half of the one-shot channel, through which the answer
    /// arrives.
    pub receiver: Receiver<Notification<C>>,
    /// The one-shot channel that was registered before, if any. There is
    /// none if all earlier requests have been seen through to the end.
    pub previous: Option<Sender<Notification<C>>>,
    /// What the request asks for first.
    pub action: RequestAction<I, C, E>,
}

/// Whether the two are the halves of one one-shot channel.
pub open spec fn halves<C>(
    sender: Sender<Notification<C>>,
    receiver: Receiver<Notification<C>>,
) -> bool {
    call_ensures(
        futures::channel::oneshot::channel::<Notification<C>>,
        (),
        (sender, receiver),
    )
}

/// The channel that is registered after an attempt to send the message of a
/// request, with `registered` being the one that was before.
pub open spec fn after_sending<C, E>(
    registered: Option<Sender<Notification<C>>>,
    result: Result<(), E>,
) -> Option<Sender<Notification<C>>> {
    match result {
        Ok(()) => registered,
        Err(_) => None,
    }
}

/// A subscription associated with a [`MessageStream`] that allows for
/// sending and receiving control messages over it.
///
/// # Notes
/// - in order for any [`send`][Subscription::send] or
///   [`read`][Subscription::read] operations to resolve, the associated
///   [`MessageStream`] stream needs to be polled; that is necessary because
///   this operation expects a control message response and that control
///   message comes through the regular stream.
#[derive(Debug)]
pub struct Subscription<S, M, I> where M: Message {
    /// A sink to which we can send control messages.
    pub sink: S,
    /// Phantom data for the message type, and for our sink's item type,
    /// which does not have to be the actual control message type.
    pub marker: PhantomData<(M, I)>,
}

impl<S, M, I> Subscription<S, M, I> where M: Message {
    /// Install a one-shot channel, through which the answer to a request
    /// will arrive, for a request that asks for `action` first.
    fn with_channel<E>(
        shared: &mut SharedState<M::ControlMessage>,
        action: RequestAction<I, M::ControlMessage, E>,
    ) -> (request: Request<I, M::ControlMessage, E>)
        ensures
            final(shared).registered() matches Some(sender) && halves(sender, request.receiver),
            request.previous == old(shared).registered(),
            request.action == action,
    {
        let (sender, receiver) = futures::channel::oneshot::channel();
        let previous = shared.register(sender);
        Request { receiver, previous, action }
    }

    /// Start to send a message over the internal control channel and to wait
    /// for a control message response.
    pub fn send<E>(shared: &mut SharedState<M::ControlMessage>, item: I) -> (request: Request<
        I,
        M::ControlMessage,
        E,
    >)
        ensures
            final(shared).registered() matches Some(sender) && halves(sender, request.receiver),
            request.previous == old(shared).registered(),
            request.action == RequestAction::<I, M::ControlMessage, E>::Send(item),
    {
        Self::with_channel(shared, RequestAction::Send(item))
    }

    /// Start to wait for a control message to arrive.
    pub fn read<E>(shared: &mut SharedState<M::ControlMessage>) -> (request: Request<
        I,
        M::ControlMessage,
        E,
    >)
        ensures
            final(shared).registered() matches Some(sender) && halves(sender, request.receiver),
            request.previous == old(shared).registered(),
            request.action == RequestAction::<I, M::ControlMessage, E>::Receive,
    {
        Self::with_channel(shared, RequestAction::Receive)
    }

    /// Continue a request, given what has come of sending its item: the
    /// answer has to be waited for, unless the sink failed. In that case the
    /// request is over, and nothing is expected any more.
    pub fn sent<E>(
        shared: &mut SharedState<M::ControlMessage>,
        result: Result<(), E>,
    ) -> (action: RequestAction<I, M::ControlMessage, E>)
        ensures
            action == (match result {
                Ok(()) => RequestAction::<I, M::ControlMessage, E>::Receive,
                Err(err) => RequestAction::Return(Err(err)),
            }),
            final(shared).registered() == after_sending(old(shared).registered(), result),
    {
        match result {
            Ok(()) => RequestAction::Receive,
            Err(err) => {
                // We are about to exit early, because we failed to send our
                // message over the control channel. Make sure to clean up
                // the shared state that we installed earlier.
                let _ = shared.withdraw();
                RequestAction::Return(Err(err))
            },
        }
    }

    /// Finish a request, given what arrived through the one-shot channel. Its
    /// result is
    /// - `Ok(None)` when the message stream got closed
    /// - `Ok(Some(Err(())))` when message classification reported an error;
    ///   the actual error still manifests through the message stream
    /// - `Ok(Some(Ok(..)))` with the control message otherwise
    pub fn received<E>(
        result: Result<Notification<M::ControlMessage>, Canceled>,
    ) -> (action: RequestAction<I, M::ControlMessage, E>)
        ensures
            action == RequestAction::<I, M::ControlMessage, E>::Return(
                Ok(
                    match result {
                        Ok(notification) => notification,
                        Err(_) => None,
                    },
                ),
            ),
    {
        match result {
            Ok(notification) => RequestAction::Return(Ok(notification)),
            // The only reason for getting here is if the sender got dropped.
            Err(_) => RequestAction::Return(Ok(None)),
        }
    }
}

/// Wrap a stream and an associated control channel into a
/// ([`MessageStream`], [`Subscription`]) pair, in which the subscription can
/// be used to send and receive control messages over the stream. The two are
/// connected by passing them the same [`SharedState`], which comes third.
pub fn subscribe<M, I, St, Si>(stream: St, control_channel: Si) -> (result: (
    MessageStream<St, M>,
    Subscription<Si, M, I>,
    SharedState<M::ControlMessage>,
)) where M: Message
    ensures
        result.0.stream == stream,
        result.1.sink == control_channel,
        result.2.registered() is None,
{
    let message_stream = MessageStream { stream, marker: PhantomData };
    let subscription = Subscription { sink: control_channel, marker: PhantomData };
    (message_stream, subscription, SharedState::new())
}

/// What happens while a future is driven to completion.
#[derive(Debug)]
pub enum DriveEvent<T, U> {
    /// The future has completed with this output.
    Output(T),
    /// The stream has yielded this item.
    Stream(Option<U>),
}

/// The end of driving a future, if an event brings it about; `is_error` says
/// whether a message that the stream has yielded is considered an error.
pub open spec fn driven<T, U>(event: DriveEvent<T, U>, is_error: bool) -> Option<Result<T, U>> {
    match event {
        DriveEvent::Output(output) => Some(Ok(output)),
        DriveEvent::Stream(Some(user_message)) if is_error => Some(Err(user_message)),
        DriveEvent::Stream(_) => None,
    }
}

/// Helper function to drive a [`Subscription`] related future to completion,
/// one event at a time. The stream, which is assumed to be associated with
/// the `Subscription` that the future belongs to, has to be polled so that
/// control messages can be received. Errors reported by the stream
/// (identified via [`Message::is_error`]) short circuit and fail the
/// operation immediately; whatever else the stream yields is dropped.
pub fn drive<M, T>(event: DriveEvent<T, M::UserMessage>) -> (result: Option<
    Result<T, M::UserMessage>,
>) where M: Message
    ensures
        match event {
            DriveEvent::Stream(Some(user_message)) => exists|is_error: bool| #[trigger]
                call_ensures(M::is_error, (&user_message,), is_error) && result == driven(
                    event,
                    is_error,
                ),
            _ => result == driven(event, false),
        },
{
    let is_error = match &event {
        DriveEvent::Stream(Some(user_message)) => M::is_error(user_message),
        _ => false,
    };
    drive_checked(event, is_error)
}

/// Deal with one event, of which it is known whether the message in it is
/// considered an error.
pub fn drive_checked<T, U>(event: DriveEvent<T, U>, is_error: bool) -> (result: Option<
    Result<T, U>,
>)
    ensures
        result == driven(event, is_error),
{
    match event {
        DriveEvent::Output(output) => Some(Ok(output)),
        DriveEvent::Stream(Some(user_message)) => {
            if is_error {
                Some(Err(user_message))
            } else {
                None
            }
        },
        DriveEvent::Stream(None) => None,
    }
}

} // verus!
