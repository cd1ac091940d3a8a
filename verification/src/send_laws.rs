//! What holds of a [`SendMessageState`][crate::send::SendMessageState] over
//! any number of attempts to get its message on its way.

#[allow(unused_imports)]
use crate::channel::{SinkCall, SinkReply};
#[allow(unused_imports)]
use crate::poll::Poll;
#[allow(unused_imports)]
use crate::send::{Overrun, SendMessageState};
use vstd::prelude::*;

verus! {

/// An attempt asks whether the sink is ready exactly if there is a message to
/// be sent, which is kept until the sink answers. It flushes the sink exactly
/// if that has accepted a message, and does so just once.
pub proof fn law_attempt_begins<M>(state: SendMessageState<M>)
    ensures
        state.first_call() == Some(SinkCall::<M>::PollReady) <==> state is Pending,
        state.first_call() == Some(SinkCall::<M>::PollFlush) <==> state is Flush,
        state.first_call() is None <==> state is Unused,
        state is Pending ==> state.started() == state,
        !(state is Pending) ==> state.started() is Unused,
{
}

/// The sink is handed a message exactly if it says that it is ready and there
/// is one, and then it is handed that one. A message that is to be sent stays
/// so exactly until the sink has made up its mind, and there is something to
/// flush from when the sink has accepted a message.
pub proof fn law_answer_is_acted_upon<M, E>(
    state: SendMessageState<M>,
    reply: SinkReply<E>,
    message: M,
)
    ensures
        state.next_call(reply) == Some(SinkCall::StartSend(message)) <==> state
            == SendMessageState::Pending(message) && (reply matches SinkReply::Ready(
            Poll::Ready(Ok(_)),
        )),
        state.next_call(reply) matches Some(call) ==> call is StartSend,
        state.replied(reply) == SendMessageState::Pending(message) <==> state
            == SendMessageState::Pending(message) && !(reply is Sent) && !(reply matches SinkReply::Ready(
            Poll::Ready(_),
        )),
        state.replied(reply) is Flush <==> (reply matches SinkReply::Sent(Ok(_))) || (state is Flush
            && !(reply is Sent) && !(reply matches SinkReply::Ready(Poll::Ready(_)))),
{
}

/// An attempt is still under way exactly if the sink is, and fails exactly
/// with the error that the sink reports.
pub proof fn law_result_is_that_of_the_sink<M, E>(reply: SinkReply<E>, err: E)
    ensures
        SendMessageState::<M>::polled(reply) is Pending <==> reply == SinkReply::<E>::Ready(
            Poll::Pending,
        ) || reply == SinkReply::<E>::Flushed(Poll::Pending),
        SendMessageState::<M>::polled(reply) == Poll::Ready(Err::<(), E>(err)) <==> reply
            == SinkReply::<E>::Ready(Poll::Ready(Err(err))) || reply == SinkReply::<E>::Sent(
            Err(err),
        ) || reply == SinkReply::<E>::Flushed(Poll::Ready(Err(err))),
        SendMessageState::<M>::advanced(reply) == Err::<(), E>(err) <==> reply
            == SinkReply::<E>::Ready(Poll::Ready(Err(err))) || reply == SinkReply::<E>::Sent(
            Err(err),
        ) || reply == SinkReply::<E>::Flushed(Poll::Ready(Err(err))),
{
}

/// The slot after a number of attempts for which the sink was not ready.
pub open spec fn after_busy<M, E>(state: SendMessageState<M>, attempts: nat) -> SendMessageState<M>
    decreases attempts,
{
    if attempts == 0 {
        state
    } else {
        after_busy::<M, E>(state, (attempts - 1) as nat).started().replied(
            SinkReply::<E>::Ready(Poll::Pending),
        )
    }
}

/// However often the sink is not ready for a message, the next attempt asks it
/// again, and once it is ready it is handed that very message. The attempt
/// after that flushes it, and then there is nothing left to do.
pub proof fn law_message_gets_on_its_way<M, E>(message: M, attempts: nat)
    ensures
        ({
            let waiting = after_busy::<M, E>(SendMessageState::Pending(message), attempts);
            let ready = SinkReply::<E>::Ready(Poll::Ready(Ok(())));
            let taken = waiting.started().replied(ready);
            let sent = taken.replied(SinkReply::<E>::Sent(Ok(())));
            &&& waiting.first_call() == Some(SinkCall::<M>::PollReady)
            &&& waiting.started().next_call(ready) == Some(SinkCall::StartSend(message))
            &&& taken.first_call() is None
            &&& sent.first_call() == Some(SinkCall::<M>::PollFlush)
            &&& forall|flushed: Poll<Result<(), E>>|
                (#[trigger] sent.started().replied(SinkReply::Flushed(flushed))).first_call()
                    is None
        }),
    decreases attempts,
{
    if attempts > 0 {
        law_message_gets_on_its_way::<M, E>(message, (attempts - 1) as nat);
        lemma_still_waiting::<M, E>(message, (attempts - 1) as nat);
    }
}

/// A busy sink leaves the message where it is.
proof fn lemma_still_waiting<M, E>(message: M, attempts: nat)
    ensures
        after_busy::<M, E>(SendMessageState::Pending(message), attempts)
            == SendMessageState::Pending(message),
    decreases attempts,
{
    if attempts > 0 {
        lemma_still_waiting::<M, E>(message, (attempts - 1) as nat);
    }
}

/// Setting a message tells of the one that it takes the place of exactly if
/// there is one, and that it has not been sent exactly if it is still to be
/// sent.
pub proof fn law_replaced_message_is_told_of<M>(state: SendMessageState<M>, message: M)
    ensures
        state.overrun() == Some(Overrun::Unsent(message)) <==> state == SendMessageState::Pending(
            message,
        ),
        state.overrun() == Some(Overrun::<M>::Unflushed) <==> state is Flush,
        state.overrun() is None <==> state is Unused,
{
}

} // verus!
