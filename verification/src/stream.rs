//! Two ways of looking at a WebSocket channel that answer every ping and
//! check regularly whether the peer is still there: a stream of bytes, and a
//! [`Wrapper`] with fixed settings.

use crate::channel::{missed_pong, Error, ErrorKind, ErrorModel, Progress};
use crate::message::{MessageModel, WebSocketMessage};
use crate::poll::Poll;
use crate::wrap::{self, Action, ActionModel, Event, EventModel, Ping, PingerReply, WrapperModel};
use std::time::Duration;
use vstd::prelude::*;

pub use crate::message::Message;

verus! {

/// What has come of a message: bytes for the user, if there are any, and
/// whether the peer has closed the channel.
pub type Handled<B> = (Option<B>, bool);

/// What is done about a message from the channel: either a reply has to be
/// sent, or the outcome is known.
pub open spec fn handling<E>(result: Option<Result<MessageModel, E>>) -> Progress<
    MessageModel,
    Result<Handled<Seq<u8>>, ErrorModel<E>>,
> {
    match result {
        None => Progress::Done(Err(ErrorModel::AlreadyClosed)),
        Some(Err(err)) => Progress::Done(Err(ErrorModel::Channel(err))),
        Some(Ok(MessageModel::Close(_))) => Progress::Done(Ok((None, true))),
        Some(Ok(MessageModel::Text(text))) => Progress::Done(
            Ok((Some(vstd::utf8::encode_utf8(text)), false)),
        ),
        Some(Ok(MessageModel::Binary(data))) => Progress::Done(Ok((Some(data), false))),
        Some(Ok(MessageModel::Ping(data))) => Progress::Call(MessageModel::Pong(data)),
        Some(Ok(MessageModel::Pong(_))) => Progress::Done(Ok((None, false))),
        Some(Ok(MessageModel::Frame(_))) => Progress::Done(Ok((None, false))),
    }
}

/// What has come of a ping, once it is known what has come of the reply.
pub open spec fn handling_replied<E>(sent: Result<(), E>) -> Result<
    Handled<Seq<u8>>,
    ErrorModel<E>,
> {
    match sent {
        Ok(()) => Ok((None, false)),
        Err(err) => Err(ErrorModel::Channel(err)),
    }
}

/// What a received item holds.
pub open spec fn item_model<E>(result: Option<Result<WebSocketMessage, E>>) -> Option<
    Result<MessageModel, E>,
> {
    match result {
        None => None,
        Some(Err(err)) => Some(Err(err)),
        Some(Ok(message)) => Some(Ok(message@)),
    }
}

/// What an outcome holds.
pub open spec fn outcome_model<E>(outcome: Result<Handled<Vec<u8>>, Error<E>>) -> Result<
    Handled<Seq<u8>>,
    ErrorModel<E>,
> {
    match outcome {
        Ok((Some(data), closed)) => Ok((Some(data@), closed)),
        Ok((None, closed)) => Ok((None, closed)),
        Err(err) => Err(err@),
    }
}

/// Handle a single message from the channel. If a reply is called for, what
/// has come of it goes to [`handle_reply`].
pub fn handle_msg<E>(result: Option<Result<WebSocketMessage, E>>) -> (progress: Progress<
    WebSocketMessage,
    Result<Handled<Vec<u8>>, Error<E>>,
>)
    ensures
        match (progress, handling(item_model(result))) {
            (Progress::Call(message), Progress::Call(model)) => message@ == model,
            (Progress::Done(outcome), Progress::Done(model)) => outcome_model(outcome) == model,
            _ => false,
        },
{
    match result {
        None => Progress::Done(Err(Error::AlreadyClosed)),
        Some(Err(err)) => Progress::Done(Err(Error::Channel(err))),
        Some(Ok(message)) => match message {
            WebSocketMessage::Close(_) => Progress::Done(Ok((None, true))),
            WebSocketMessage::Text(text) => Progress::Done(
                Ok((Some(text.as_str().as_bytes_vec()), false)),
            ),
            WebSocketMessage::Binary(data) => Progress::Done(Ok((Some(data), false))),
            WebSocketMessage::Ping(data) => Progress::Call(WebSocketMessage::Pong(data)),
            WebSocketMessage::Pong(_) => Progress::Done(Ok((None, false))),
            WebSocketMessage::Frame(_) => Progress::Done(Ok((None, false))),
        },
    }
}

/// Finish handling a ping, given what has come of the reply.
pub fn handle_reply<E>(sent: Result<(), E>) -> (outcome: Result<Handled<Vec<u8>>, Error<E>>)
    ensures
        outcome_model(outcome) == handling_replied(sent),
{
    match sent {
        Ok(()) => Ok((None, false)),
        Err(err) => Err(Error::Channel(err)),
    }
}

/// What happens to a [`ByteStream`]: it is polled, or a [`ByteAction`] is
/// answered.
#[derive(Debug, PartialEq)]
pub enum ByteEvent<M, E> {
    /// The next item is asked for.
    Poll,
    /// [`ByteAction::Wait`] ended with an item from the channel.
    Next(Option<Result<M, E>>),
    /// [`ByteAction::Wait`] ended with the ping interval.
    Tick,
    /// The answer to [`ByteAction::SendPong`].
    PongSent(Result<(), E>),
    /// The answer to [`ByteAction::SendPing`].
    PingSent(Result<(), E>),
}

impl<M: View, E> View for ByteEvent<M, E> {
    type V = ByteEvent<M::V, E>;

    open spec fn view(&self) -> ByteEvent<M::V, E> {
        match self {
            ByteEvent::Poll => ByteEvent::Poll,
            ByteEvent::Next(None) => ByteEvent::Next(None),
            ByteEvent::Next(Some(Err(err))) => ByteEvent::Next(Some(Err(*err))),
            ByteEvent::Next(Some(Ok(message))) => ByteEvent::Next(Some(Ok(message@))),
            ByteEvent::Tick => ByteEvent::Tick,
            ByteEvent::PongSent(sent) => ByteEvent::PongSent(*sent),
            ByteEvent::PingSent(sent) => ByteEvent::PingSent(*sent),
        }
    }
}

/// What a [`ByteStream`] asks for.
#[derive(Debug, PartialEq)]
pub enum ByteAction<M, B, X> {
    /// Wait for the channel's next item or for the ping interval, whichever
    /// comes first.
    Wait,
    /// Send this pong.
    SendPong(M),
    /// Send this ping.
    SendPing(M),
    /// Hand this item out.
    Yield(Result<B, X>),
    /// There are no more items.
    End,
}

impl<M: View, B: View, X: View> View for ByteAction<M, B, X> {
    type V = ByteAction<M::V, B::V, X::V>;

    open spec fn view(&self) -> ByteAction<M::V, B::V, X::V> {
        match self {
            ByteAction::Wait => ByteAction::Wait,
            ByteAction::SendPong(message) => ByteAction::SendPong(message@),
            ByteAction::SendPing(message) => ByteAction::SendPing(message@),
            ByteAction::Yield(Ok(data)) => ByteAction::Yield(Ok(data@)),
            ByteAction::Yield(Err(err)) => ByteAction::Yield(Err(err@)),
            ByteAction::End => ByteAction::End,
        }
    }
}

/// A [`ByteEvent`], with what its message holds.
pub type ByteEventModel<E> = ByteEvent<MessageModel, E>;

/// A [`ByteAction`], with what its message, its data and its error hold.
pub type ByteActionModel<E> = ByteAction<MessageModel, Seq<u8>, ErrorModel<E>>;

/// What a [`ByteStream`] holds.
#[verifier::ext_equal]
pub struct ByteStreamModel {
    /// The time between two checks of the connection.
    pub ping_interval: Duration,
    /// Whether there are no more items.
    pub closed: bool,
    /// Where the check of the connection stands.
    pub ping: Ping,
}

impl ByteStreamModel {
    /// A stream that has not been polled yet.
    pub open spec fn initial(ping_interval: Duration) -> ByteStreamModel {
        ByteStreamModel { ping_interval, closed: false, ping: Ping::NotNeeded }
    }

    /// The state in which the next item is waited for. The check of the
    /// connection starts anew with each item.
    pub open spec fn begun(self) -> ByteStreamModel {
        if self.closed {
            self
        } else {
            ByteStreamModel { ping: Ping::NotNeeded, ..self }
        }
    }

    /// How waiting for the next item begins.
    pub open spec fn begin<E>(self) -> ByteActionModel<E> {
        if self.closed {
            ByteAction::End
        } else {
            ByteAction::Wait
        }
    }

    /// The state after a message was handled: a close message ends the
    /// stream, an error does not. If there is nothing for the user, the next
    /// item is waited for.
    pub open spec fn handled<E>(self, outcome: Result<Handled<Seq<u8>>, ErrorModel<E>>) -> Self {
        match outcome {
            Ok((Some(_), closed)) => ByteStreamModel { closed, ..self },
            Ok((None, closed)) => ByteStreamModel { closed, ..self }.begun(),
            Err(_) => ByteStreamModel { closed: false, ..self },
        }
    }

    /// What is asked for after a message was handled.
    pub open spec fn hand_out<E>(
        self,
        outcome: Result<Handled<Seq<u8>>, ErrorModel<E>>,
    ) -> ByteActionModel<E> {
        match outcome {
            Ok((Some(data), _)) => ByteAction::Yield(Ok(data)),
            Ok((None, true)) => ByteAction::End,
            Ok((None, false)) => ByteAction::Wait,
            Err(err) => ByteAction::Yield(Err(err)),
        }
    }

    /// The state after an event.
    pub open spec fn next<E>(self, event: ByteEventModel<E>) -> ByteStreamModel {
        match event {
            ByteEvent::Poll => self.begun(),
            ByteEvent::Next(item) => {
                let active = ByteStreamModel { ping: Ping::NotNeeded, ..self };
                match handling(item) {
                    Progress::Call(_) => active,
                    Progress::Done(outcome) => active.handled(outcome),
                }
            },
            ByteEvent::Tick => match self.ping {
                Ping::NotNeeded => ByteStreamModel { ping: Ping::Needed, ..self },
                Ping::Needed => self,
                Ping::Pending => ByteStreamModel { closed: true, ..self },
            },
            ByteEvent::PongSent(sent) => self.handled(handling_replied(sent)),
            ByteEvent::PingSent(Ok(())) => ByteStreamModel { ping: Ping::Pending, ..self },
            ByteEvent::PingSent(Err(_)) => ByteStreamModel { closed: false, ..self },
        }
    }

    /// What is asked for after an event.
    pub open spec fn action<E>(self, event: ByteEventModel<E>) -> ByteActionModel<E> {
        match event {
            ByteEvent::Poll => self.begin(),
            ByteEvent::Next(item) => match handling(item) {
                Progress::Call(message) => ByteAction::SendPong(message),
                Progress::Done(outcome) => self.hand_out(outcome),
            },
            ByteEvent::Tick => match self.ping {
                Ping::NotNeeded => ByteAction::Wait,
                Ping::Needed => ByteAction::SendPing(MessageModel::Ping(Seq::empty())),
                Ping::Pending => ByteAction::Yield(
                    Err(crate::channel::missed_pong_model(ErrorKind::Other)),
                ),
            },
            ByteEvent::PongSent(sent) => self.hand_out(handling_replied(sent)),
            ByteEvent::PingSent(Ok(())) => ByteAction::Wait,
            ByteEvent::PingSent(Err(err)) => ByteAction::Yield(Err(ErrorModel::Channel(err))),
        }
    }
}

/// A stream of the bytes that arrive over a channel, honoring and filtering
/// WebSocket control messages.
#[derive(Debug)]
pub struct ByteStream {
    /// The time between two checks of the connection.
    ping_interval: Duration,
    /// Whether there are no more items.
    closed: bool,
    /// Where the check of the connection stands.
    ping: Ping,
}

impl View for ByteStream {
    type V = ByteStreamModel;

    closed spec fn view(&self) -> ByteStreamModel {
        ByteStreamModel {
            ping_interval: self.ping_interval,
            closed: self.closed,
            ping: self.ping,
        }
    }
}

impl ByteStream {
    /// The time between two checks of the connection.
    pub fn ping_interval(&self) -> (interval: Duration)
        ensures
            interval == self@.ping_interval,
    {
        self.ping_interval
    }

    /// Carry a poll for the next item one step further. The event is
    /// [`ByteEvent::Poll`] to begin with, and the answer to the last action
    /// after that.
    pub fn poll_next<E>(&mut self, event: ByteEvent<WebSocketMessage, E>) -> (action: ByteAction<
        WebSocketMessage,
        Vec<u8>,
        Error<E>,
    >)
        ensures
            final(self)@ == old(self)@.next(event@),
            action@ == old(self)@.action(event@),
    {
        match event {
            ByteEvent::Poll => self.begin(),
            ByteEvent::Next(item) => {
                // We just got a message from the server. Whatever it was, it
                // means our connection is still standing, so no need to ask
                // for a ping.
                self.ping = Ping::NotNeeded;
                match handle_msg(item) {
                    Progress::Call(message) => ByteAction::SendPong(message),
                    Progress::Done(outcome) => self.hand_out(outcome),
                }
            },
            ByteEvent::Tick => match self.ping {
                Ping::NotNeeded => {
                    self.ping = Ping::Needed;
                    ByteAction::Wait
                },
                Ping::Needed => ByteAction::SendPing(WebSocketMessage::Ping(Vec::new())),
                Ping::Pending => {
                    self.closed = true;
                    ByteAction::Yield(Err(missed_pong(ErrorKind::Other)))
                },
            },
            ByteEvent::PongSent(sent) => self.hand_out(handle_reply(sent)),
            ByteEvent::PingSent(Ok(())) => {
                self.ping = Ping::Pending;
                ByteAction::Wait
            },
            ByteEvent::PingSent(Err(err)) => {
                self.closed = false;
                ByteAction::Yield(Err(Error::Channel(err)))
            },
        }
    }

    /// Begin to wait for the next item.
    fn begin<E>(&mut self) -> (action: ByteAction<WebSocketMessage, Vec<u8>, Error<E>>)
        ensures
            final(self)@ == old(self)@.begun(),
            action@ == old(self)@.begin::<E>(),
    {
        if self.closed {
            ByteAction::End
        } else {
            self.ping = Ping::NotNeeded;
            ByteAction::Wait
        }
    }

    /// Hand out what has come of a message.
    fn hand_out<E>(&mut self, outcome: Result<Handled<Vec<u8>>, Error<E>>) -> (action: ByteAction<
        WebSocketMessage,
        Vec<u8>,
        Error<E>,
    >)
        ensures
            final(self)@ == old(self)@.handled(outcome_model(outcome)),
            action@ == old(self)@.hand_out(outcome_model(outcome)),
    {
        match outcome {
            Ok((Some(data), closed)) => {
                self.closed = closed;
                ByteAction::Yield(Ok(data))
            },
            Ok((None, closed)) => {
                self.closed = closed;
                self.begin()
            },
            Err(err) => {
                self.closed = false;
                ByteAction::Yield(Err(err))
            },
        }
    }
}

/// Create a stream of bytes that checks the connection at the given
/// interval.
pub fn stream_impl(ping_interval: Duration) -> (stream: ByteStream)
    ensures
        stream@ == ByteStreamModel::initial(ping_interval),
{
    ByteStream { ping_interval, closed: false, ping: Ping::NotNeeded }
}

/// Create a stream of higher level primitives out of a client, honoring and
/// filtering WebSocket control messages such as `Ping` and `Close`. It checks
/// the connection every 30 seconds.
pub fn stream() -> (stream: ByteStream)
    ensures
        stream@ == ByteStreamModel::initial(crate::time::seconds(30)),
{
    stream_impl(Duration::from_secs(30))
}

/// An event as the wrapped wrapper sees it: the interval runs on by itself,
/// so once it has passed there is nothing to start over.
pub open spec fn running_on<M, E>(event: Event<M, E>) -> Event<M, E> {
    match event {
        Event::Ping(PingerReply::Tick(Poll::Ready(_))) => Event::Ping(PingerReply::TickReset),
        event => event,
    }
}

/// An action with a missed pong reported as an error of no special class.
pub open spec fn unclassified<E>(action: ActionModel<E>) -> ActionModel<E> {
    match action {
        Action::Return(Poll::Ready(Some(Err(ErrorModel::Io(_, text))))) => Action::Return(
            Poll::Ready(Some(Err(ErrorModel::Io(ErrorKind::Other, text)))),
        ),
        action => action,
    }
}

/// The state of a wrapper that has just been created.
pub open spec fn initial_wrapper(ping_interval: Duration) -> WrapperModel {
    wrap::BuilderModel { ping_interval: Some(ping_interval), send_pongs: true }.built()
}

/// A wrapped WebSocket channel that handles responding to pings, sends pings
/// to check for liveness of server, and filters out WebSocket control
/// messages in the process. The ping interval is not started over when it
/// has passed.
#[derive(Debug)]
pub struct Wrapper<S> {
    /// The wrapper that does the work.
    wrapper: wrap::Wrapper<S>,
}

impl<S> Wrapper<S> {
    /// The wrapped channel.
    pub closed spec fn channel(self) -> S {
        self.wrapper.channel()
    }

    /// What the wrapper holds besides the channel.
    pub closed spec fn model(self) -> WrapperModel {
        self.wrapper.model()
    }

    /// Create a `Wrapper` object wrapping the provided channel that uses the
    /// default ping interval (30s).
    pub fn with_default(inner: S) -> (wrapper: Self)
        ensures
            wrapper.channel() == inner,
            wrapper.model() == initial_wrapper(crate::time::seconds(30)),
    {
        Self::new(inner, Duration::from_secs(30))
    }

    /// Create a `Wrapper` object wrapping the provided channel.
    pub fn new(inner: S, ping_interval: Duration) -> (wrapper: Self)
        ensures
            wrapper.channel() == inner,
            wrapper.model() == initial_wrapper(ping_interval),
    {
        let builder = wrap::Wrapper::builder();
        let builder = builder.set_ping_interval(Some(ping_interval)).set_send_pongs(true);
        Wrapper { wrapper: builder.build(inner) }
    }

    /// The wrapped channel, for performing an [`Action`] on it.
    pub fn channel_mut(&mut self) -> (channel: &mut S)
        ensures
            *channel == old(self).channel(),
            final(self).channel() == *final(channel),
            final(self).model() == old(self).model(),
    {
        self.wrapper.channel_mut()
    }

    /// The time between two checks of the connection.
    pub fn ping_interval(&self) -> (interval: Option<Duration>)
        ensures
            interval == (match self.model().ping {
                Some(pinger) => Some(pinger.next_ping),
                None => None,
            }),
    {
        self.wrapper.ping_interval()
    }

    /// Carry a poll for the next message one step further. The event is
    /// [`Event::Poll`] to begin with, and the answer to the last action after
    /// that.
    pub fn poll_next<E>(&mut self, event: Event<WebSocketMessage, E>) -> (action: Action<
        WebSocketMessage,
        Message,
        Error<E>,
    >)
        ensures
            final(self).channel() == old(self).channel(),
            final(self).model() == old(self).model().next(running_on(event@)),
            action@ == unclassified(old(self).model().action(running_on(event@))),
    {
        let event = match event {
            Event::Ping(PingerReply::Tick(Poll::Ready(()))) => Event::Ping(PingerReply::TickReset),
            event => event,
        };
        match self.wrapper.poll_next(event) {
            Action::Return(Poll::Ready(Some(Err(Error::Io(_, text))))) => Action::Return(
                Poll::Ready(Some(Err(Error::Io(ErrorKind::Other, text)))),
            ),
            action => action,
        }
    }
}

} // verus!
