//! Functionality for wrapping a WebSocket channel, adding automated support
//! for handling of control messages.
//!
//! [`Wrapper::poll_next`] carries out one poll of the wrapped channel step by
//! step. Each step returns an [`Action`]; whoever owns the channel performs
//! it and hands the answer back as an [`Event`].

use crate::channel::{missed_pong, Error, ErrorKind, ErrorModel, Progress, SinkCall, SinkReply};
use crate::message::{MessageModel, UserModel, WebSocketMessage};
use crate::poll::Poll;
use crate::send::{set_message, Overrun, SendMessageState};
use std::marker::PhantomData;
use std::time::Duration;
use vstd::prelude::*;

pub use crate::message::Message;

verus! {

/// The state machine to handle pings to the server.
#[derive(Clone, Copy, Debug, PartialEq, Eq, Structural)]
pub enum Ping {
    /// No ping is needed because we know the connection is still alive.
    NotNeeded,
    /// We haven't heard back from the server in a while and will issue a
    /// ping next.
    Needed,
    /// A ping has been issued and is pending. If the interval passes again
    /// that means no pong was received and the connection to the server is
    /// broken.
    Pending,
}

/// A request of a [`Pinger`].
#[derive(Debug, PartialEq)]
pub enum PingerCall<M> {
    /// A call to the sink, for a ping that an earlier poll has left behind.
    Queued(SinkCall<M>),
    /// Ask whether the ping interval has passed.
    PollTick,
    /// Start the ping interval over.
    ResetTick,
    /// A call to the sink, for a ping that has just become due.
    Fresh(SinkCall<M>),
}

impl<M: View> View for PingerCall<M> {
    type V = PingerCall<M::V>;

    open spec fn view(&self) -> PingerCall<M::V> {
        match self {
            PingerCall::Queued(call) => PingerCall::Queued(call@),
            PingerCall::PollTick => PingerCall::PollTick,
            PingerCall::ResetTick => PingerCall::ResetTick,
            PingerCall::Fresh(call) => PingerCall::Fresh(call@),
        }
    }
}

/// The answer to a [`PingerCall`].
#[derive(Debug, PartialEq)]
pub enum PingerReply<E> {
    /// The answer to [`PingerCall::Queued`].
    Queued(SinkReply<E>),
    /// The answer to [`PingerCall::PollTick`].
    Tick(Poll<()>),
    /// The answer to [`PingerCall::ResetTick`].
    TickReset,
    /// The answer to [`PingerCall::Fresh`].
    Fresh(SinkReply<E>),
}

impl<E> PingerReply<E> {
    /// The error that the sink reported, if any.
    pub open spec fn error(self) -> Option<E> {
        match self {
            PingerReply::Queued(reply) => reply.error(),
            PingerReply::Fresh(reply) => reply.error(),
            _ => None,
        }
    }
}

/// What a [`Pinger`] holds.
#[verifier::ext_equal]
pub struct PingerModel {
    /// The slot that pings are sent from.
    pub ping: SendMessageState<MessageModel>,
    /// The time between two checks of the connection.
    pub next_ping: Duration,
    /// Where the check of the connection stands.
    pub ping_state: Ping,
}

impl PingerModel {
    /// A pinger that has not done anything yet.
    pub open spec fn initial(ping_interval: Duration) -> PingerModel {
        PingerModel {
            ping: SendMessageState::Unused,
            next_ping: ping_interval,
            ping_state: Ping::NotNeeded,
        }
    }

    /// The state after a sign of life of the peer.
    pub open spec fn active(self) -> PingerModel {
        PingerModel { ping_state: Ping::NotNeeded, ..self }
    }

    /// The state when a poll has begun.
    pub open spec fn begun(self) -> PingerModel {
        PingerModel { ping: self.ping.started(), ..self }
    }

    /// The call that a poll begins with: a ping that is left over goes
    /// first, then the interval is looked at.
    pub open spec fn first_call(self) -> PingerCall<MessageModel> {
        match self.ping.first_call() {
            Some(call) => PingerCall::Queued(call),
            None => PingerCall::PollTick,
        }
    }

    /// The state after an answer.
    ///
    /// Once the interval has passed, a peer that showed activity is due to
    /// be checked, one that is due is sent a ping, and one that has left a
    /// ping without an answer is due again. A ping counts as issued unless
    /// the sink failed on it.
    pub open spec fn replied<E>(self, reply: PingerReply<E>) -> PingerModel {
        match reply {
            PingerReply::Queued(reply) => PingerModel { ping: self.ping.replied(reply), ..self },
            PingerReply::Tick(_) => self,
            PingerReply::TickReset => match self.ping_state {
                Ping::NotNeeded => PingerModel { ping_state: Ping::Needed, ..self },
                Ping::Needed => PingerModel {
                    ping: SendMessageState::Pending(MessageModel::Ping(Seq::empty())),
                    ..self
                },
                Ping::Pending => PingerModel { ping_state: Ping::Needed, ..self },
            },
            PingerReply::Fresh(reply) => PingerModel {
                ping: self.ping.replied(reply),
                ping_state: if self.ping.next_call(reply) is None && reply.error() is None {
                    Ping::Pending
                } else {
                    self.ping_state
                },
                ..self
            },
        }
    }

    /// The message overrun that an answer causes, if any: a ping that becomes
    /// due may find an earlier one not on its way yet.
    pub open spec fn overrun<E>(self, reply: PingerReply<E>) -> Option<Overrun<MessageModel>> {
        match (reply, self.ping_state) {
            (PingerReply::TickReset, Ping::Needed) => self.ping.overrun(),
            _ => None,
        }
    }

    /// What follows on an answer.
    pub open spec fn progress<E>(self, reply: PingerReply<E>) -> Progress<
        PingerCall<MessageModel>,
        Result<(), ErrorModel<E>>,
    > {
        match (reply, reply.error()) {
            (_, Some(err)) => Progress::Done(Err(ErrorModel::Channel(err))),
            (PingerReply::Queued(reply), None) => match self.ping.next_call(reply) {
                Some(call) => Progress::Call(PingerCall::Queued(call)),
                None => Progress::Call(PingerCall::PollTick),
            },
            (PingerReply::Tick(Poll::Pending), None) => Progress::Done(Ok(())),
            (PingerReply::Tick(Poll::Ready(())), None) => Progress::Call(PingerCall::ResetTick),
            (PingerReply::TickReset, None) => match self.ping_state {
                Ping::NotNeeded => Progress::Done(Ok(())),
                Ping::Needed => Progress::Call(PingerCall::Fresh(SinkCall::PollReady)),
                Ping::Pending => Progress::Done(Err(crate::channel::missed_pong_model(ErrorKind::TimedOut))),
            },
            (PingerReply::Fresh(reply), None) => match self.ping.next_call(reply) {
                Some(call) => Progress::Call(PingerCall::Fresh(call)),
                None => Progress::Done(Ok(())),
            },
        }
    }
}

/// The logic of sending pings at regular intervals (if needed).
#[derive(Debug)]
pub struct Pinger {
    /// The state we maintain for sending pings.
    ping: SendMessageState<WebSocketMessage>,
    /// The time between two checks of the connection.
    next_ping: Duration,
    /// State helping us keep track of pings that we want to send to the
    /// server.
    ping_state: Ping,
    /// The message overrun that the last answer caused, until it is handed
    /// out.
    overrun: Option<Overrun<WebSocketMessage>>,
}

impl View for Pinger {
    type V = PingerModel;

    closed spec fn view(&self) -> PingerModel {
        PingerModel {
            ping: self.ping@,
            next_ping: self.next_ping,
            ping_state: self.ping_state,
        }
    }
}

impl Pinger {
    /// Create a new `Pinger` object for sending pings spaced by
    /// `ping_interval`.
    pub fn new(ping_interval: Duration) -> (pinger: Self)
        ensures
            pinger@ == PingerModel::initial(ping_interval),
            pinger.overran() is None,
    {
        Pinger {
            ping: SendMessageState::Unused,
            next_ping: ping_interval,
            ping_state: Ping::NotNeeded,
            overrun: None,
        }
    }

    /// The message overrun that has not been handed out yet.
    pub closed spec fn overran(self) -> Option<Overrun<MessageModel>> {
        crate::send::overrun_model(self.overrun)
    }

    /// Hand out the message overrun that the last answer caused, if any.
    pub fn take_overrun(&mut self) -> (overrun: Option<Overrun<WebSocketMessage>>)
        ensures
            final(self)@ == old(self)@,
            final(self).overran() is None,
            crate::send::overrun_model(overrun) == old(self).overran(),
    {
        self.overrun.take()
    }

    /// The time between two checks of the connection.
    pub fn interval(&self) -> (interval: Duration)
        ensures
            interval == self@.next_ping,
    {
        self.next_ping
    }

    /// Attempt to advance the ping state by one step. Answers to the calls
    /// that this makes go to [`advance_reply`][Self::advance_reply].
    pub fn advance(&mut self) -> (call: PingerCall<WebSocketMessage>)
        ensures
            final(self)@ == old(self)@.begun(),
            final(self).overran() == old(self).overran(),
            call@ == old(self)@.first_call(),
    {
        match self.ping.advance::<()>() {
            Progress::Call(call) => PingerCall::Queued(call),
            Progress::Done(_) => PingerCall::PollTick,
        }
    }

    /// Continue with the answer to the call that was made last.
    pub fn advance_reply<E>(&mut self, reply: PingerReply<E>) -> (progress: Progress<
        PingerCall<WebSocketMessage>,
        Result<(), Error<E>>,
    >)
        ensures
            final(self)@ == old(self)@.replied(reply),
            final(self).overran() == old(self)@.overrun(reply),
            match (progress, old(self)@.progress(reply)) {
                (Progress::Call(call), Progress::Call(model)) => call@ == model,
                (Progress::Done(Ok(())), Progress::Done(Ok(()))) => true,
                (Progress::Done(Err(err)), Progress::Done(Err(model))) => err@ == model,
                _ => false,
            },
    {
        self.overrun = None;
        match reply {
            PingerReply::Queued(reply) => match self.ping.advance_reply(reply) {
                Progress::Call(call) => Progress::Call(PingerCall::Queued(call)),
                Progress::Done(Ok(())) => Progress::Call(PingerCall::PollTick),
                Progress::Done(Err(err)) => Progress::Done(Err(Error::Channel(err))),
            },
            PingerReply::Tick(Poll::Pending) => Progress::Done(Ok(())),
            // We are on the hook for resetting the interval when it passed,
            // so that intervals that were missed do not add up.
            PingerReply::Tick(Poll::Ready(())) => Progress::Call(PingerCall::ResetTick),
            PingerReply::TickReset => match self.ping_state {
                Ping::NotNeeded => {
                    // Something caused our ping state to change to
                    // `NotNeeded` since we last set it to `Needed`.
                    self.ping_state = Ping::Needed;
                    Progress::Done(Ok(()))
                },
                Ping::Needed => {
                    // The ping state is still `Needed`, which is what we set
                    // it to when the interval passed last. We need to make
                    // sure to actually send a ping over the wire now.
                    let message = WebSocketMessage::Ping(Vec::new());
                    self.overrun = set_message(&mut self.ping, message);
                    match self.ping.advance::<E>() {
                        Progress::Call(call) => Progress::Call(PingerCall::Fresh(call)),
                        Progress::Done(_) => Progress::Done(Ok(())),
                    }
                },
                Ping::Pending => {
                    // We leave it up to clients to decide how to handle
                    // missed pings. But in order to not end up in an endless
                    // error cycle in case the client does not care, clear
                    // our ping state.
                    self.ping_state = Ping::Needed;
                    Progress::Done(Err(missed_pong(ErrorKind::TimedOut)))
                },
            },
            PingerReply::Fresh(reply) => match self.ping.advance_reply(reply) {
                Progress::Call(call) => Progress::Call(PingerCall::Fresh(call)),
                Progress::Done(Ok(())) => {
                    self.ping_state = Ping::Pending;
                    Progress::Done(Ok(()))
                },
                Progress::Done(Err(err)) => Progress::Done(Err(Error::Channel(err))),
            },
        }
    }

    /// Register the fact that activity occurred over the associated
    /// WebSocket channel, meaning that there is no need to ping the server
    /// this interval.
    pub fn activity(&mut self)
        ensures
            final(self)@ == old(self)@.active(),
            final(self).overran() == old(self).overran(),
    {
        self.ping_state = Ping::NotNeeded;
    }
}

/// What a [`Builder`] has been told.
#[verifier::ext_equal]
pub struct BuilderModel {
    /// The interval at which to send pings, unless they are disabled.
    pub ping_interval: Option<Duration>,
    /// Whether or not pings are answered with pongs.
    pub send_pongs: bool,
}

impl BuilderModel {
    /// What a builder does unless told otherwise: it sends pings every 30
    /// seconds, and no pongs.
    pub open spec fn initial() -> BuilderModel {
        BuilderModel { ping_interval: Some(crate::time::seconds(30)), send_pongs: false }
    }

    /// The state of a wrapper that has just been built.
    pub open spec fn built(self) -> WrapperModel {
        WrapperModel {
            pong: if self.send_pongs {
                Some(SendMessageState::Unused)
            } else {
                None
            },
            ping: match self.ping_interval {
                Some(interval) => Some(PingerModel::initial(interval)),
                None => None,
            },
        }
    }
}

/// A type helping with the construction of [`Wrapper`] objects.
#[derive(Debug)]
pub struct Builder<S> {
    /// The interval at which to send pings. A value of `None` disables
    /// sending of pings.
    ping_interval: Option<Duration>,
    /// Whether or not we send pong replies to ping messages.
    send_pongs: bool,
    /// Phantom data for the WebSocket type.
    _phantom: PhantomData<S>,
}

impl<S> View for Builder<S> {
    type V = BuilderModel;

    closed spec fn view(&self) -> BuilderModel {
        BuilderModel { ping_interval: self.ping_interval, send_pongs: self.send_pongs }
    }
}

impl<S> Builder<S> {
    /// Overwrite the default ping interval of 30s with a custom one.
    pub fn set_ping_interval(self, interval: Option<Duration>) -> (builder: Builder<S>)
        ensures
            builder@ == (BuilderModel { ping_interval: interval, ..self@ }),
    {
        Builder { ping_interval: interval, ..self }
    }

    /// Overwrite the default of sending no pong responses to pings.
    pub fn set_send_pongs(self, enable: bool) -> (builder: Builder<S>)
        ensures
            builder@ == (BuilderModel { send_pongs: enable, ..self@ }),
    {
        Builder { send_pongs: enable, ..self }
    }

    /// Build the final [`Wrapper`] wrapping the provided WebSocket channel.
    pub fn build(self, channel: S) -> (wrapper: Wrapper<S>)
        ensures
            wrapper.channel() == channel,
            wrapper.model() == self@.built(),
            wrapper.overran() is None,
    {
        Wrapper {
            inner: channel,
            pong: if self.send_pongs {
                Some(SendMessageState::Unused)
            } else {
                None
            },
            ping: match self.ping_interval {
                Some(interval) => Some(Pinger::new(interval)),
                None => None,
            },
            overrun: None,
        }
    }
}

impl<S> Default for Builder<S> {
    fn default() -> (builder: Self)
        ensures
            builder@ == BuilderModel::initial(),
    {
        Builder {
            ping_interval: Some(Duration::from_secs(30)),
            send_pongs: false,
            _phantom: PhantomData,
        }
    }
}

/// What happens to a [`Wrapper`]: it is polled, or an [`Action`] is answered.
#[derive(Debug, PartialEq)]
pub enum Event<M, E> {
    /// The wrapper is polled for the next message.
    Poll,
    /// The answer to [`Action::Pong`].
    Pong(SinkReply<E>),
    /// The answer to [`Action::Ping`].
    Ping(PingerReply<E>),
    /// The answer to [`Action::PollNext`].
    Next(Poll<Option<Result<M, E>>>),
    /// The answer to [`Action::Reply`].
    Reply(SinkReply<E>),
}

impl<M: View, E> View for Event<M, E> {
    type V = Event<M::V, E>;

    open spec fn view(&self) -> Event<M::V, E> {
        match self {
            Event::Poll => Event::Poll,
            Event::Pong(reply) => Event::Pong(*reply),
            Event::Ping(reply) => Event::Ping(*reply),
            Event::Next(Poll::Pending) => Event::Next(Poll::Pending),
            Event::Next(Poll::Ready(None)) => Event::Next(Poll::Ready(None)),
            Event::Next(Poll::Ready(Some(Err(err)))) => Event::Next(Poll::Ready(Some(Err(*err)))),
            Event::Next(Poll::Ready(Some(Ok(message)))) => Event::Next(
                Poll::Ready(Some(Ok(message@))),
            ),
            Event::Reply(reply) => Event::Reply(*reply),
        }
    }
}

impl<M, E> Event<M, E> {
    /// The error that the channel reported, if any.
    pub open spec fn error(self) -> Option<E> {
        match self {
            Event::Pong(reply) => reply.error(),
            Event::Ping(reply) => reply.error(),
            Event::Next(Poll::Ready(Some(Err(err)))) => Some(err),
            Event::Reply(reply) => reply.error(),
            _ => None,
        }
    }
}

/// What a [`Wrapper`] asks for.
#[derive(Debug, PartialEq)]
pub enum Action<M, U, X> {
    /// A call to the sink, for a pong that an earlier poll has left behind.
    Pong(SinkCall<M>),
    /// A call on behalf of the pings.
    Ping(PingerCall<M>),
    /// Poll the channel for the next message.
    PollNext,
    /// A call to the sink, for a pong that has just become due.
    Reply(SinkCall<M>),
    /// The poll is over, with this result.
    Return(Poll<Option<Result<U, X>>>),
}

impl<M: View, U: View, X: View> View for Action<M, U, X> {
    type V = Action<M::V, U::V, X::V>;

    open spec fn view(&self) -> Action<M::V, U::V, X::V> {
        match self {
            Action::Pong(call) => Action::Pong(call@),
            Action::Ping(call) => Action::Ping(call@),
            Action::PollNext => Action::PollNext,
            Action::Reply(call) => Action::Reply(call@),
            Action::Return(Poll::Pending) => Action::Return(Poll::Pending),
            Action::Return(Poll::Ready(None)) => Action::Return(Poll::Ready(None)),
            Action::Return(Poll::Ready(Some(Ok(message)))) => Action::Return(
                Poll::Ready(Some(Ok(message@))),
            ),
            Action::Return(Poll::Ready(Some(Err(err)))) => Action::Return(
                Poll::Ready(Some(Err(err@))),
            ),
        }
    }
}

/// An [`Event`], with what its message holds.
pub type EventModel<E> = Event<MessageModel, E>;

/// An [`Action`], with what its messages and its error hold.
pub type ActionModel<E> = Action<MessageModel, UserModel, ErrorModel<E>>;

/// The end of a poll that failed.
pub open spec fn failure<E>(err: ErrorModel<E>) -> ActionModel<E> {
    Action::Return(Poll::Ready(Some(Err(err))))
}

/// What a [`Wrapper`] holds besides the channel.
#[verifier::ext_equal]
pub struct WrapperModel {
    /// The slot that pongs are sent from, if they are sent at all.
    pub pong: Option<SendMessageState<MessageModel>>,
    /// The state of the pings, if they are sent at all.
    pub ping: Option<PingerModel>,
}

impl WrapperModel {
    /// The slot that pongs are sent from; nothing is ever in it when pongs
    /// are not sent.
    pub open spec fn pong_slot(self) -> SendMessageState<MessageModel> {
        match self.pong {
            Some(slot) => slot,
            None => SendMessageState::Unused,
        }
    }

    /// The state after the slot for pongs changed to `slot`.
    pub open spec fn with_pong(self, slot: SendMessageState<MessageModel>) -> WrapperModel {
        WrapperModel {
            pong: match self.pong {
                Some(_) => Some(slot),
                None => None,
            },
            ..self
        }
    }

    /// The state after the turn has come to the pings.
    pub open spec fn ping_begun(self) -> WrapperModel {
        WrapperModel {
            ping: match self.ping {
                Some(pinger) => Some(pinger.begun()),
                None => None,
            },
            ..self
        }
    }

    /// What is asked for when the turn has come to the pings.
    pub open spec fn ping_action<E>(self) -> ActionModel<E> {
        match self.ping {
            Some(pinger) => Action::Ping(pinger.first_call()),
            None => Action::PollNext,
        }
    }

    /// The state after an answer on behalf of the pings.
    pub open spec fn ping_replied<E>(self, reply: PingerReply<E>) -> WrapperModel {
        WrapperModel {
            ping: match self.ping {
                Some(pinger) => Some(pinger.replied(reply)),
                None => None,
            },
            ..self
        }
    }

    /// The state after a message arrived: any message is a sign of life, and
    /// a ping is due an answer with the same payload, in place of an earlier
    /// one that is not on its way yet.
    pub open spec fn received(self, message: MessageModel) -> WrapperModel {
        let active = WrapperModel {
            ping: match self.ping {
                Some(pinger) => Some(pinger.active()),
                None => None,
            },
            ..self
        };
        match message {
            MessageModel::Ping(data) => active.with_pong(
                SendMessageState::Pending(MessageModel::Pong(data)),
            ),
            _ => active,
        }
    }

    /// The state after an event.
    pub open spec fn next<E>(self, event: EventModel<E>) -> WrapperModel {
        match event {
            Event::Poll => match self.pong_slot().first_call() {
                Some(_) => self.with_pong(self.pong_slot().started()),
                None => self.ping_begun(),
            },
            Event::Pong(reply) => {
                let replied = self.with_pong(self.pong_slot().replied(reply));
                if self.pong_slot().next_call(reply) is None && reply.error() is None {
                    replied.ping_begun()
                } else {
                    replied
                }
            },
            Event::Ping(reply) => self.ping_replied(reply),
            Event::Next(Poll::Ready(Some(Ok(message)))) => self.received(message),
            Event::Next(_) => self,
            Event::Reply(reply) => self.with_pong(self.pong_slot().replied(reply)),
        }
    }

    /// The message overrun that an event causes, if any.
    pub open spec fn overrun<E>(self, event: EventModel<E>) -> Option<Overrun<MessageModel>> {
        match (event, self.pong, self.ping) {
            (Event::Ping(reply), _, Some(pinger)) => pinger.overrun(reply),
            (Event::Next(Poll::Ready(Some(Ok(MessageModel::Ping(_))))), Some(slot), _) =>
                slot.overrun(),
            _ => None,
        }
    }

    /// What is asked for after an event.
    ///
    /// An error ends the poll. Otherwise a poll gets a leftover pong on its
    /// way, then sees to the pings, and then receives until there is a
    /// message for the user, or none at all. A ping that arrives is answered
    /// before anything else is received.
    pub open spec fn action<E>(self, event: EventModel<E>) -> ActionModel<E> {
        match (event, event.error()) {
            (_, Some(err)) => failure(ErrorModel::Channel(err)),
            (Event::Poll, None) => match self.pong_slot().first_call() {
                Some(call) => Action::Pong(call),
                None => self.ping_action(),
            },
            (Event::Pong(reply), None) => match self.pong_slot().next_call(reply) {
                Some(call) => Action::Pong(call),
                None => self.ping_action(),
            },
            (Event::Ping(reply), None) => match self.ping {
                Some(pinger) => match pinger.progress(reply) {
                    Progress::Call(call) => Action::Ping(call),
                    Progress::Done(Ok(())) => Action::PollNext,
                    Progress::Done(Err(err)) => failure(err),
                },
                None => Action::PollNext,
            },
            (Event::Next(Poll::Ready(Some(Ok(message)))), None) => match message {
                MessageModel::Text(data) => Action::Return(
                    Poll::Ready(Some(Ok(UserModel::Text(data)))),
                ),
                MessageModel::Binary(data) => Action::Return(
                    Poll::Ready(Some(Ok(UserModel::Binary(data)))),
                ),
                MessageModel::Ping(_) if self.pong is Some => Action::Reply(SinkCall::PollReady),
                _ => Action::PollNext,
            },
            (Event::Next(Poll::Ready(_)), None) => Action::Return(Poll::Ready(None)),
            (Event::Next(Poll::Pending), None) => Action::Return(Poll::Pending),
            (Event::Reply(reply), None) => match self.pong_slot().next_call(reply) {
                Some(call) => Action::Reply(call),
                None => Action::PollNext,
            },
        }
    }
}

/// A wrapped WebSocket channel that handles responding to pings with pongs,
/// sending of pings to check for liveness of server, and filtering out of
/// WebSocket control messages in the process.
#[derive(Debug)]
pub struct Wrapper<S> {
    /// The wrapped stream & sink.
    inner: S,
    /// The state we maintain for sending pongs over our internal sink.
    pong: Option<SendMessageState<WebSocketMessage>>,
    /// The state we maintain for sending pings over our internal sink.
    ping: Option<Pinger>,
    /// The message overrun that the last event caused, until it is handed
    /// out.
    overrun: Option<Overrun<WebSocketMessage>>,
}

impl<S> Wrapper<S> {
    /// The wrapped channel.
    pub closed spec fn channel(self) -> S {
        self.inner
    }

    /// What the wrapper holds besides the channel.
    pub closed spec fn model(self) -> WrapperModel {
        WrapperModel {
            pong: match self.pong {
                Some(slot) => Some(slot@),
                None => None,
            },
            ping: match self.ping {
                Some(pinger) => Some(pinger@),
                None => None,
            },
        }
    }

    /// The message overrun that has not been handed out yet.
    pub closed spec fn overran(self) -> Option<Overrun<MessageModel>> {
        crate::send::overrun_model(self.overrun)
    }

    /// Create a [`Builder`] for creating a customized `Wrapper`.
    pub fn builder() -> (builder: Builder<S>)
        ensures
            builder@ == BuilderModel::initial(),
    {
        Builder::default()
    }

    /// The wrapped channel, for performing an [`Action`] on it.
    pub fn channel_mut(&mut self) -> (channel: &mut S)
        ensures
            *channel == old(self).channel(),
            final(self).channel() == *final(channel),
            final(self).model() == old(self).model(),
            final(self).overran() == old(self).overran(),
    {
        &mut self.inner
    }

    /// Hand out the message overrun that the last event caused, if any.
    pub fn take_overrun(&mut self) -> (overrun: Option<Overrun<WebSocketMessage>>)
        ensures
            final(self).channel() == old(self).channel(),
            final(self).model() == old(self).model(),
            final(self).overran() is None,
            crate::send::overrun_model(overrun) == old(self).overran(),
    {
        self.overrun.take()
    }

    /// The time between two checks of the connection, unless pings are
    /// disabled.
    pub fn ping_interval(&self) -> (interval: Option<Duration>)
        ensures
            interval == (match self.model().ping {
                Some(pinger) => Some(pinger.next_ping),
                None => None,
            }),
    {
        match &self.ping {
            Some(pinger) => Some(pinger.interval()),
            None => None,
        }
    }

    /// Carry a poll for the next message one step further. The event is
    /// [`Event::Poll`] to begin with, and the answer to the last action after
    /// that.
    pub fn poll_next<E>(&mut self, event: Event<WebSocketMessage, E>) -> (action: Action<
        WebSocketMessage,
        Message,
        Error<E>,
    >)
        ensures
            final(self).channel() == old(self).channel(),
            final(self).model() == old(self).model().next(event@),
            final(self).overran() == old(self).model().overrun(event@),
            action@ == old(self).model().action(event@),
    {
        self.overrun = None;
        match event {
            Event::Poll => {
                // Start off by trying to advance any sending of pings and
                // pongs.
                if let Some(pong) = &mut self.pong {
                    if let Progress::Call(call) = pong.advance::<E>() {
                        return Action::Pong(call);
                    }
                }
                self.advance_ping()
            },
            Event::Pong(reply) => match self.advance_pong(reply) {
                Progress::Call(call) => Action::Pong(call),
                Progress::Done(Ok(())) => self.advance_ping(),
                Progress::Done(Err(err)) => Action::Return(
                    Poll::Ready(Some(Err(Error::Channel(err)))),
                ),
            },
            Event::Ping(reply) => {
                if let Some(pinger) = &mut self.ping {
                    let progress = pinger.advance_reply(reply);
                    self.overrun = pinger.take_overrun();
                    match progress {
                        Progress::Call(call) => Action::Ping(call),
                        Progress::Done(Ok(())) => Action::PollNext,
                        Progress::Done(Err(err)) => Action::Return(Poll::Ready(Some(Err(err)))),
                    }
                } else {
                    match into_error(reply) {
                        Some(err) => Action::Return(Poll::Ready(Some(Err(Error::Channel(err))))),
                        None => Action::PollNext,
                    }
                }
            },
            // No new data is available yet.
            Event::Next(Poll::Pending) => Action::Return(Poll::Pending),
            // The stream is exhausted.
            Event::Next(Poll::Ready(None)) => Action::Return(Poll::Ready(None)),
            Event::Next(Poll::Ready(Some(Err(err)))) => Action::Return(
                Poll::Ready(Some(Err(Error::Channel(err)))),
            ),
            Event::Next(Poll::Ready(Some(Ok(message)))) => self.receive(message),
            Event::Reply(reply) => match self.advance_pong(reply) {
                Progress::Call(call) => Action::Reply(call),
                Progress::Done(Ok(())) => Action::PollNext,
                Progress::Done(Err(err)) => Action::Return(
                    Poll::Ready(Some(Err(Error::Channel(err)))),
                ),
            },
        }
    }

    /// Continue to get a pong on its way.
    fn advance_pong<E>(&mut self, reply: SinkReply<E>) -> (progress: Progress<
        SinkCall<WebSocketMessage>,
        Result<(), E>,
    >)
        ensures
            final(self).channel() == old(self).channel(),
            final(self).model() == old(self).model().with_pong(
                old(self).model().pong_slot().replied(reply),
            ),
            final(self).overran() == old(self).overran(),
            match (progress, old(self).model().pong_slot().next_call(reply)) {
                (Progress::Call(call), Some(model)) => call@ == model,
                (Progress::Done(Ok(())), None) => reply.error() is None,
                (Progress::Done(Err(err)), None) => reply.error() == Some(err),
                _ => false,
            },
    {
        match &mut self.pong {
            Some(pong) => pong.advance_reply(reply),
            None => {
                let mut unused = SendMessageState::Unused;
                unused.advance_reply(reply)
            },
        }
    }

    /// Start to see to the pings.
    fn advance_ping<E>(&mut self) -> (action: Action<WebSocketMessage, Message, Error<E>>)
        ensures
            final(self).channel() == old(self).channel(),
            final(self).model() == old(self).model().ping_begun(),
            final(self).overran() == old(self).overran(),
            action@ == old(self).model().ping_action::<E>(),
    {
        if let Some(pinger) = &mut self.ping {
            Action::Ping(pinger.advance())
        } else {
            Action::PollNext
        }
    }

    /// Deal with a message that arrived.
    fn receive<E>(&mut self, message: WebSocketMessage) -> (action: Action<
        WebSocketMessage,
        Message,
        Error<E>,
    >)
        ensures
            final(self).channel() == old(self).channel(),
            final(self).model() == old(self).model().received(message@),
            final(self).overran() == old(self).model().overrun::<E>(
                Event::Next(Poll::Ready(Some(Ok(message@)))),
            ),
            action@ == old(self).model().action::<E>(Event::Next(Poll::Ready(Some(Ok(message@))))),
    {
        self.overrun = None;
        if let Some(pinger) = &mut self.ping {
            pinger.activity();
        }
        match message {
            WebSocketMessage::Text(data) => Action::Return(
                Poll::Ready(Some(Ok(Message::Text(data)))),
            ),
            WebSocketMessage::Binary(data) => Action::Return(
                Poll::Ready(Some(Ok(Message::Binary(data)))),
            ),
            WebSocketMessage::Ping(data) => {
                if let Some(pong) = &mut self.pong {
                    // Respond with a pong.
                    self.overrun = set_message(pong, WebSocketMessage::Pong(data));
                    match pong.advance::<E>() {
                        Progress::Call(call) => Action::Reply(call),
                        Progress::Done(_) => Action::PollNext,
                    }
                } else {
                    Action::PollNext
                }
            },
            // We don't handle pongs any specifically. We already registered
            // that we received a message above.
            WebSocketMessage::Pong(_) => Action::PollNext,
            // We just ignore close messages. From our perspective they serve
            // no purpose, because the stream already has a notion of
            // "exhausted".
            WebSocketMessage::Close(_) => Action::PollNext,
            // We should never receive such a value while reading messages.
            WebSocketMessage::Frame(_) => Action::PollNext,
        }
    }
}

/// The error that the sink reported, if any.
fn into_error<E>(reply: PingerReply<E>) -> (err: Option<E>)
    ensures
        err == reply.error(),
{
    match reply {
        PingerReply::Queued(reply) | PingerReply::Fresh(reply) => match reply {
            SinkReply::Ready(Poll::Ready(Err(err))) => Some(err),
            SinkReply::Sent(Err(err)) => Some(err),
            SinkReply::Flushed(Poll::Ready(Err(err))) => Some(err),
            _ => None,
        },
        _ => None,
    }
}

} // verus!
