//! What the models of messages, requests and answers tell of them: two values
//! that differ in what matters have different models.

#[allow(unused_imports)]
use crate::channel::{Error, ErrorKind, ErrorModel, SinkCall, SinkReply};
#[allow(unused_imports)]
use crate::message::{Message, MessageModel, UserModel, WebSocketMessage};
#[allow(unused_imports)]
use crate::poll::Poll;
#[allow(unused_imports)]
use crate::send::{Overrun, SendMessageState};
#[allow(unused_imports)]
use crate::stream::{ByteAction, ByteEvent, Handled};
#[allow(unused_imports)]
use crate::wrap::{Action, Event, PingerCall, PingerReply};
use vstd::prelude::*;

verus! {

/// The model of a message tells its kind and what it carries.
pub proof fn law_message_model(message: WebSocketMessage)
    ensures
        match message@ {
            MessageModel::Text(data) => message matches WebSocketMessage::Text(s) && s@ == data,
            MessageModel::Binary(data) => message matches WebSocketMessage::Binary(v) && v@ == data,
            MessageModel::Ping(data) => message matches WebSocketMessage::Ping(v) && v@ == data,
            MessageModel::Pong(data) => message matches WebSocketMessage::Pong(v) && v@ == data,
            MessageModel::Close(frame) => message == WebSocketMessage::Close(frame),
            MessageModel::Frame(frame) => message == WebSocketMessage::Frame(frame),
        },
{
}

/// The model of a message for the user tells its kind and what it carries.
pub proof fn law_user_message_model(message: Message)
    ensures
        match message@ {
            UserModel::Text(data) => message matches Message::Text(s) && s@ == data,
            UserModel::Binary(data) => message matches Message::Binary(v) && v@ == data,
        },
{
}

/// The model of an error tells what it was caused by.
pub proof fn law_error_model<E>(err: Error<E>)
    ensures
        match err@ {
            ErrorModel::Channel(cause) => err == Error::Channel(cause),
            ErrorModel::Io(kind, text) => err matches Error::Io(k, s) && k == kind && s@ == text,
            ErrorModel::AlreadyClosed => err is AlreadyClosed,
        },
{
}

/// A missed pong is reported in the same words whatever the class of the
/// error.
pub proof fn law_missed_pong_model<E>(kind: ErrorKind)
    ensures
        crate::channel::missed_pong_model::<E>(kind) == ErrorModel::<E>::Io(
            kind,
            "server failed to respond to pings"@,
        ),
{
}

/// The model of a request to a sink tells which one it is and with what
/// message.
pub proof fn law_sink_call_model<M: View>(call: SinkCall<M>)
    ensures
        match call@ {
            SinkCall::PollReady => call is PollReady,
            SinkCall::StartSend(model) => call matches SinkCall::StartSend(message) && message@
                == model,
            SinkCall::PollFlush => call is PollFlush,
        },
{
}

/// The model of a request on behalf of the pings tells which one it is.
pub proof fn law_pinger_call_model<M: View>(call: PingerCall<M>)
    ensures
        match call@ {
            PingerCall::Queued(model) => call matches PingerCall::Queued(inner) && inner@ == model,
            PingerCall::PollTick => call is PollTick,
            PingerCall::ResetTick => call is ResetTick,
            PingerCall::Fresh(model) => call matches PingerCall::Fresh(inner) && inner@ == model,
        },
{
}

/// The model of what happens to a wrapper tells what it is.
pub proof fn law_event_model<M: View, E>(event: Event<M, E>)
    ensures
        match event@ {
            Event::Poll => event is Poll,
            Event::Pong(reply) => event == Event::<M, E>::Pong(reply),
            Event::Ping(reply) => event == Event::<M, E>::Ping(reply),
            Event::Next(Poll::Pending) => event == Event::<M, E>::Next(Poll::Pending),
            Event::Next(Poll::Ready(None)) => event == Event::<M, E>::Next(Poll::Ready(None)),
            Event::Next(Poll::Ready(Some(Err(err)))) => event == Event::<M, E>::Next(
                Poll::Ready(Some(Err(err))),
            ),
            Event::Next(Poll::Ready(Some(Ok(model)))) => event matches Event::Next(
                Poll::Ready(Some(Ok(message))),
            ) && message@ == model,
            Event::Reply(reply) => event == Event::<M, E>::Reply(reply),
        },
{
}

/// The model of what a wrapper asks for tells what it is.
pub proof fn law_action_model<M: View, U: View, X: View>(action: Action<M, U, X>)
    ensures
        match action@ {
            Action::Pong(model) => action matches Action::Pong(call) && call@ == model,
            Action::Ping(model) => action matches Action::Ping(call) && call@ == model,
            Action::PollNext => action is PollNext,
            Action::Reply(model) => action matches Action::Reply(call) && call@ == model,
            Action::Return(Poll::Pending) => action == Action::<M, U, X>::Return(Poll::Pending),
            Action::Return(Poll::Ready(None)) => action == Action::<M, U, X>::Return(
                Poll::Ready(None),
            ),
            Action::Return(Poll::Ready(Some(Ok(model)))) => action matches Action::Return(
                Poll::Ready(Some(Ok(message))),
            ) && message@ == model,
            Action::Return(Poll::Ready(Some(Err(model)))) => action matches Action::Return(
                Poll::Ready(Some(Err(err))),
            ) && err@ == model,
        },
{
}

/// The model of what happens to a stream of bytes tells what it is.
pub proof fn law_byte_event_model<M: View, E>(event: ByteEvent<M, E>)
    ensures
        match event@ {
            ByteEvent::Poll => event is Poll,
            ByteEvent::Next(None) => event == ByteEvent::<M, E>::Next(None),
            ByteEvent::Next(Some(Err(err))) => event == ByteEvent::<M, E>::Next(Some(Err(err))),
            ByteEvent::Next(Some(Ok(model))) => event matches ByteEvent::Next(Some(Ok(message)))
                && message@ == model,
            ByteEvent::Tick => event is Tick,
            ByteEvent::PongSent(sent) => event == ByteEvent::<M, E>::PongSent(sent),
            ByteEvent::PingSent(sent) => event == ByteEvent::<M, E>::PingSent(sent),
        },
{
}

/// The model of what a stream of bytes asks for tells what it is.
pub proof fn law_byte_action_model<M: View, B: View, X: View>(action: ByteAction<M, B, X>)
    ensures
        match action@ {
            ByteAction::Wait => action is Wait,
            ByteAction::SendPong(model) => action matches ByteAction::SendPong(message) && message@
                == model,
            ByteAction::SendPing(model) => action matches ByteAction::SendPing(message) && message@
                == model,
            ByteAction::Yield(Ok(model)) => action matches ByteAction::Yield(Ok(data)) && data@
                == model,
            ByteAction::Yield(Err(model)) => action matches ByteAction::Yield(Err(err)) && err@
                == model,
            ByteAction::End => action is End,
        },
{
}

/// The model of what the channel yields tells what it is.
pub proof fn law_item_model<E>(item: Option<Result<WebSocketMessage, E>>)
    ensures
        match crate::stream::item_model(item) {
            None => item is None,
            Some(Err(err)) => item == Some(Err::<WebSocketMessage, E>(err)),
            Some(Ok(model)) => item matches Some(Ok(message)) && message@ == model,
        },
{
}

/// The model of what has come of a message tells what bytes there are,
/// whether the channel is closed, and the error.
pub proof fn law_outcome_model<E>(outcome: Result<Handled<Vec<u8>>, Error<E>>)
    ensures
        match crate::stream::outcome_model(outcome) {
            Ok((None, closed)) => outcome == Ok::<Handled<Vec<u8>>, Error<E>>((None, closed)),
            Ok((Some(model), closed)) => outcome matches Ok((Some(data), flag)) && data@ == model
                && flag == closed,
            Err(model) => outcome matches Err(err) && err@ == model,
        },
{
}

/// The model of a message overrun tells whether a message got lost, and
/// which.
pub proof fn law_overrun_model<M: View>(overrun: Option<Overrun<M>>)
    ensures
        match crate::send::overrun_model(overrun) {
            None => overrun is None,
            Some(Overrun::Unsent(model)) => overrun matches Some(Overrun::Unsent(message))
                && message@ == model,
            Some(Overrun::Unflushed) => overrun == Some(Overrun::<M>::Unflushed),
        },
{
}

/// The text `name(field)` holds the name, an opening parenthesis, the field
/// and a closing parenthesis, and nothing else.
pub proof fn law_tuple_text(name: Seq<char>, field: Seq<char>)
    ensures
        ({
            let text = crate::message::tuple_text(name, field);
            &&& text.len() == name.len() + field.len() + 2
            &&& text.take(name.len() as int) == name
            &&& text[name.len() as int] == '('
            &&& text.subrange(name.len() as int + 1, text.len() - 1) == field
            &&& text.last() == ')'
        }),
{
    reveal_strlit("(");
    reveal_strlit(")");
    let text = crate::message::tuple_text(name, field);
    assert(text.take(name.len() as int) =~= name);
    assert(text.subrange(name.len() as int + 1, text.len() - 1) =~= field);
}

} // verus!
