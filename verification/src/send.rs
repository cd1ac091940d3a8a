use crate::channel::{Progress, SinkCall, SinkReply};
use crate::poll::Poll;
use vstd::prelude::*;

verus! {

/// The state maintained to track the sending of control messages.
#[derive(Debug, PartialEq)]
pub enum SendMessageState<M> {
    /// The message slot is not in use currently.
    Unused,
    /// A message is pending to be sent.
    Pending(M),
    /// A message has been sent but not yet flushed.
    Flush,
}

impl<M: View> View for SendMessageState<M> {
    type V = SendMessageState<M::V>;

    open spec fn view(&self) -> SendMessageState<M::V> {
        match self {
            SendMessageState::Unused => SendMessageState::Unused,
            SendMessageState::Pending(message) => SendMessageState::Pending(message@),
            SendMessageState::Flush => SendMessageState::Flush,
        }
    }
}

/// A message overrun: a message is set although the last one is not on its
/// way yet.
#[derive(Debug, PartialEq)]
pub enum Overrun<M> {
    /// The last message, which has not been sent and never will be.
    Unsent(M),
    /// The last message has not been flushed.
    Unflushed,
}

impl<M: View> View for Overrun<M> {
    type V = Overrun<M::V>;

    open spec fn view(&self) -> Overrun<M::V> {
        match self {
            Overrun::Unsent(message) => Overrun::Unsent(message@),
            Overrun::Unflushed => Overrun::Unflushed,
        }
    }
}

/// What an overrun holds, if there is one.
pub open spec fn overrun_model<M: View>(overrun: Option<Overrun<M>>) -> Option<Overrun<M::V>> {
    match overrun {
        Some(overrun) => Some(overrun@),
        None => None,
    }
}

impl<M> SendMessageState<M> {
    /// The call that starts an attempt to get the message on its way, if
    /// there is anything to do.
    pub open spec fn first_call(self) -> Option<SinkCall<M>> {
        match self {
            SendMessageState::Unused => None,
            SendMessageState::Pending(_) => Some(SinkCall::PollReady),
            SendMessageState::Flush => Some(SinkCall::PollFlush),
        }
    }

    /// The state once that call is under way: a flush is attempted just
    /// once, whatever comes of it.
    pub open spec fn started(self) -> SendMessageState<M> {
        match self {
            SendMessageState::Pending(message) => SendMessageState::Pending(message),
            _ => SendMessageState::Unused,
        }
    }

    /// The call that the sink's answer `reply` makes necessary: a pending
    /// message goes to a sink that is ready for it.
    pub open spec fn next_call<E>(self, reply: SinkReply<E>) -> Option<SinkCall<M>> {
        match (self, reply) {
            (SendMessageState::Pending(message), SinkReply::Ready(Poll::Ready(Ok(())))) => Some(
                SinkCall::StartSend(message),
            ),
            _ => None,
        }
    }

    /// The state after the sink's answer `reply`.
    pub open spec fn replied<E>(self, reply: SinkReply<E>) -> SendMessageState<M> {
        match reply {
            SinkReply::Ready(Poll::Pending) => self,
            SinkReply::Ready(Poll::Ready(_)) => SendMessageState::Unused,
            SinkReply::Sent(Ok(())) => SendMessageState::Flush,
            SinkReply::Sent(Err(_)) => SendMessageState::Unused,
            SinkReply::Flushed(_) => self,
        }
    }

    /// The overrun that setting a message causes, if any.
    pub open spec fn overrun(self) -> Option<Overrun<M>> {
        match self {
            SendMessageState::Unused => None,
            SendMessageState::Pending(message) => Some(Overrun::Unsent(message)),
            SendMessageState::Flush => Some(Overrun::Unflushed),
        }
    }

    /// Set a message to be sent.
    pub fn set(&mut self, message: M)
        ensures
            *final(self) == SendMessageState::Pending(message),
    {
        *self = SendMessageState::Pending(message);
    }

    /// Take the message that is pending, leaving the slot unused.
    fn take(&mut self) -> (message: Option<M>)
        ensures
            *final(self) == SendMessageState::<M>::Unused,
            message == (match *old(self) {
                SendMessageState::Pending(message) => Some(message),
                _ => None,
            }),
    {
        let mut state = SendMessageState::Unused;
        std::mem::swap(self, &mut state);
        match state {
            SendMessageState::Pending(message) => Some(message),
            _ => None,
        }
    }

    /// Attempt to get the message one step further on its way. Answers to
    /// the calls that this makes go to [`poll_reply`][Self::poll_reply].
    pub fn poll<E>(&mut self) -> (progress: Progress<SinkCall<M>, Poll<Result<(), E>>>)
        ensures
            *final(self) == old(self).started(),
            progress == (match old(self).first_call() {
                Some(call) => Progress::Call(call),
                None => Progress::Done(Poll::Ready(Ok::<(), E>(()))),
            }),
    {
        match self {
            SendMessageState::Unused => Progress::Done(Poll::Ready(Ok(()))),
            SendMessageState::Pending(_) => Progress::Call(SinkCall::PollReady),
            SendMessageState::Flush => {
                *self = SendMessageState::Unused;
                Progress::Call(SinkCall::PollFlush)
            },
        }
    }

    /// The result of an attempt that ended with the answer `reply`.
    pub open spec fn polled<E>(reply: SinkReply<E>) -> Poll<Result<(), E>> {
        match reply {
            SinkReply::Ready(Poll::Pending) | SinkReply::Flushed(Poll::Pending) => Poll::Pending,
            _ => match reply.error() {
                Some(err) => Poll::Ready(Err(err)),
                None => Poll::Ready(Ok(())),
            },
        }
    }

    /// Continue an attempt with the answer to the call that it made last.
    pub fn poll_reply<E>(&mut self, reply: SinkReply<E>) -> (progress: Progress<
        SinkCall<M>,
        Poll<Result<(), E>>,
    >)
        ensures
            *final(self) == old(self).replied(reply),
            progress == (match old(self).next_call(reply) {
                Some(call) => Progress::Call(call),
                None => Progress::Done(Self::polled(reply)),
            }),
    {
        match reply {
            SinkReply::Ready(Poll::Pending) => Progress::Done(Poll::Pending),
            SinkReply::Ready(Poll::Ready(Ok(()))) => match self.take() {
                Some(message) => Progress::Call(SinkCall::StartSend(message)),
                None => Progress::Done(Poll::Ready(Ok(()))),
            },
            SinkReply::Ready(Poll::Ready(Err(err))) => {
                *self = SendMessageState::Unused;
                Progress::Done(Poll::Ready(Err(err)))
            },
            SinkReply::Sent(Ok(())) => {
                *self = SendMessageState::Flush;
                Progress::Done(Poll::Ready(Ok(())))
            },
            SinkReply::Sent(Err(err)) => {
                *self = SendMessageState::Unused;
                Progress::Done(Poll::Ready(Err(err)))
            },
            SinkReply::Flushed(Poll::Pending) => Progress::Done(Poll::Pending),
            SinkReply::Flushed(Poll::Ready(Ok(()))) => Progress::Done(Poll::Ready(Ok(()))),
            SinkReply::Flushed(Poll::Ready(Err(err))) => Progress::Done(Poll::Ready(Err(err))),
        }
    }

    /// Attempt to get the message one step further on its way, like
    /// [`poll`][Self::poll], but without regard to whether the sink was
    /// ready. Answers to the calls that this makes go to
    /// [`advance_reply`][Self::advance_reply].
    pub fn advance<E>(&mut self) -> (progress: Progress<SinkCall<M>, Result<(), E>>)
        ensures
            *final(self) == old(self).started(),
            progress == (match old(self).first_call() {
                Some(call) => Progress::Call(call),
                None => Progress::Done(Ok::<(), E>(())),
            }),
    {
        forget_pending(self.poll())
    }

    /// The result of an attempt that ended with the answer `reply`: only an
    /// error counts.
    pub open spec fn advanced<E>(reply: SinkReply<E>) -> Result<(), E> {
        match reply.error() {
            Some(err) => Err(err),
            None => Ok(()),
        }
    }

    /// Continue an attempt with the answer to the call that it made last.
    pub fn advance_reply<E>(&mut self, reply: SinkReply<E>) -> (progress: Progress<
        SinkCall<M>,
        Result<(), E>,
    >)
        ensures
            *final(self) == old(self).replied(reply),
            progress == (match old(self).next_call(reply) {
                Some(call) => Progress::Call(call),
                None => Progress::Done(Self::advanced(reply)),
            }),
    {
        forget_pending(self.poll_reply(reply))
    }
}

/// Treat an attempt that is still under way like one that succeeded.
fn forget_pending<C, E>(progress: Progress<C, Poll<Result<(), E>>>) -> (result: Progress<
    C,
    Result<(), E>,
>)
    ensures
        result == (match progress {
            Progress::Call(call) => Progress::Call(call),
            Progress::Done(Poll::Ready(result)) => Progress::Done(result),
            Progress::Done(Poll::Pending) => Progress::Done(Ok(())),
        }),
{
    match progress {
        Progress::Call(call) => Progress::Call(call),
        Progress::Done(Poll::Ready(result)) => Progress::Done(result),
        Progress::Done(Poll::Pending) => Progress::Done(Ok(())),
    }
}

/// Set a message to be sent, and report a message overrun, i.e., the last
/// message not having been sent or flushed yet. In all likelihood, that is
/// caused by a misconfiguration on the user side, i.e., when an extremely
/// small ping interval is set.
pub fn set_message<M>(message_state: &mut SendMessageState<M>, message: M) -> (overrun: Option<
    Overrun<M>,
>)
    ensures
        *final(message_state) == SendMessageState::Pending(message),
        overrun == old(message_state).overrun(),
{
    let mut last = SendMessageState::Unused;
    std::mem::swap(message_state, &mut last);
    message_state.set(message);
    match last {
        SendMessageState::Unused => None,
        SendMessageState::Pending(message) => Some(Overrun::Unsent(message)),
        SendMessageState::Flush => Some(Overrun::Unflushed),
    }
}

/// A message on its way: the sink is asked first, is handed the message once
/// it is ready, and is flushed by the attempt after that. Then the slot can be
/// used again.
pub proof fn law_message_is_sent_and_flushed<M, E>(message: M)
    ensures
        ({
            let set = SendMessageState::Pending(message);
            let ready: SinkReply<E> = SinkReply::Ready(Poll::Ready(Ok(())));
            let taken = set.started().replied(ready);
            let accepted: SinkReply<E> = SinkReply::Sent(Ok(()));
            let handed_over = taken.replied(accepted);
            &&& set.first_call() == Some(SinkCall::<M>::PollReady)
            &&& set.started().next_call(ready) == Some(SinkCall::StartSend(message))
            &&& taken.next_call(accepted) is None
            &&& handed_over.first_call() == Some(SinkCall::<M>::PollFlush)
            &&& handed_over.started().first_call() is None
        }),
{
}

/// A message leaves the slot when the sink takes it, and never comes back.
pub proof fn law_message_is_handed_over_once<M, E>(
    state: SendMessageState<M>,
    reply: SinkReply<E>,
)
    ensures
        state.next_call(reply) matches Some(call) ==> {
            &&& state matches SendMessageState::Pending(message) && call == SinkCall::StartSend(
                message,
            )
            &&& state.replied(reply) == SendMessageState::<M>::Unused
        },
        state.replied(reply) is Pending ==> state.replied(reply) == state,
        state.started() is Pending ==> state.started() == state,
{
}

/// A sink that is busy makes nothing get lost: the message is kept for the
/// next attempt.
pub proof fn law_busy_sink_keeps_the_message<M, E>(state: SendMessageState<M>)
    ensures
        state.replied(SinkReply::<E>::Ready(Poll::Pending)) == state,
{
}

/// After an error of the sink the slot can be used again; the message is not
/// tried a second time.
pub proof fn law_error_frees_the_slot<M, E>(state: SendMessageState<M>, reply: SinkReply<E>)
    requires
        reply.error() is Some,
        state is Pending ==> !(reply is Flushed),
    ensures
        state.started().replied(reply) == SendMessageState::<M>::Unused,
{
}

/// [`advance`][SendMessageState::advance] reports what
/// [`poll`][SendMessageState::poll] does, except that it takes an attempt
/// which is still under way for a success.
pub proof fn law_advance_forgets_pending<M, E>(reply: SinkReply<E>)
    ensures
        SendMessageState::<M>::advanced(reply) == (match SendMessageState::<M>::polled(reply) {
            Poll::Ready(result) => result,
            Poll::Pending => Ok(()),
        }),
{
}

} // verus!
