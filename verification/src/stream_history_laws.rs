//! What a [`ByteStream`][crate::stream::ByteStream] and a
//! [`Wrapper`][crate::stream::Wrapper] do in answer to everything that has
//! happened to them so far: what holds here is stated over the events alone,
//! without looking into either.

#[allow(unused_imports)]
use crate::channel::{Error, ErrorKind, ErrorModel, Progress, SinkCall, SinkReply};
#[allow(unused_imports)]
use crate::message::{MessageModel, WebSocketMessage};
#[allow(unused_imports)]
use crate::poll::Poll;
#[allow(unused_imports)]
use crate::stream::{
    ByteAction, ByteActionModel, ByteEvent, ByteEventModel, ByteStreamModel, Handled,
};
#[allow(unused_imports)]
use crate::wrap::{
    Action, ActionModel, BuilderModel, Event, EventModel, Ping, PingerCall, PingerReply,
    WrapperModel,
};
#[allow(unused_imports)]
use std::time::Duration;
use vstd::prelude::*;

verus! {

/// Whether a message from the channel closes it.
pub open spec fn closes<E>(item: Option<Result<MessageModel, E>>) -> bool {
    item matches Some(Ok(MessageModel::Close(_)))
}

/// The bytes for the user in what the channel yields, if it holds any: those
/// of a binary message, or of a text in its UTF-8 encoding.
pub open spec fn bytes_in<E>(item: Option<Result<MessageModel, E>>) -> Option<Seq<u8>> {
    match item {
        Some(Ok(MessageModel::Text(text))) => Some(vstd::utf8::encode_utf8(text)),
        Some(Ok(MessageModel::Binary(data))) => Some(data),
        _ => None,
    }
}

/// The error in what the channel yields, if it is one; that there is nothing
/// any more is one as well.
pub open spec fn error_in<E>(item: Option<Result<MessageModel, E>>) -> Option<ErrorModel<E>> {
    match item {
        Some(Err(err)) => Some(ErrorModel::Channel(err)),
        None => Some(ErrorModel::AlreadyClosed),
        Some(Ok(_)) => None,
    }
}

/// Of what the channel yields, exactly pings are replied to, with a pong of
/// the same payload. Everything else is handled at once: exactly errors and
/// the end of the channel come out as errors, exactly texts and binary
/// messages hold bytes for the user, and exactly a close message closes the
/// channel.
pub proof fn law_messages_are_handled<E>(item: Option<Result<MessageModel, E>>)
    ensures
        match crate::stream::handling(item) {
            Progress::Call(reply) => item matches Some(Ok(MessageModel::Ping(data))) && reply
                == MessageModel::Pong(data),
            Progress::Done(Err(err)) => error_in(item) == Some(err),
            Progress::Done(Ok((data, closed))) => {
                &&& error_in(item) is None
                &&& !(item matches Some(Ok(MessageModel::Ping(_))))
                &&& data == bytes_in(item)
                &&& closed == closes(item)
            },
        },
{
}

/// A reply to a ping that was sent leaves nothing for the user and the channel
/// open, and one that could not be sent comes out as the error of the sink.
pub proof fn law_replies_are_handled<E>(sent: Result<(), E>)
    ensures
        match crate::stream::handling_replied(sent) {
            Ok((data, closed)) => sent is Ok && data is None && !closed,
            Err(err) => sent matches Err(cause) && err == ErrorModel::Channel(cause),
        },
{
}

/// Whether an event answers an action.
pub open spec fn byte_answers<E>(action: ByteActionModel<E>, event: ByteEventModel<E>) -> bool {
    match action {
        ByteAction::Wait => event is Next || event is Tick,
        ByteAction::SendPong(_) => event is PongSent,
        ByteAction::SendPing(_) => event is PingSent,
        ByteAction::Yield(_) | ByteAction::End => event is Poll,
    }
}

/// What was asked for last; a stream that has not been polled yet is treated
/// like one that has just handed out an item.
pub open spec fn last_byte_action<E>(
    stream: ByteStreamModel,
    events: Seq<ByteEventModel<E>>,
) -> ByteActionModel<E> {
    if events.len() == 0 {
        ByteAction::Yield(Ok(Seq::empty()))
    } else {
        crate::stream_laws::byte_run(stream, events.drop_last()).action(events.last())
    }
}

/// Whether each event answers the action before it, starting with a poll.
pub open spec fn byte_conversation<E>(
    stream: ByteStreamModel,
    events: Seq<ByteEventModel<E>>,
) -> bool
    decreases events.len(),
{
    events.len() == 0 || {
        &&& byte_conversation(stream, events.drop_last())
        &&& byte_answers(last_byte_action(stream, events.drop_last()), events.last())
    }
}

/// Whether an interval has passed since the channel yielded something or an
/// item was asked for.
pub open spec fn byte_check_due<E>(events: Seq<ByteEventModel<E>>) -> bool
    decreases events.len(),
{
    if events.len() == 0 || events.last() is Next || events.last() is Poll {
        false
    } else {
        events.last() is Tick || byte_check_due(events.drop_last())
    }
}

/// Whether a ping has been sent since the channel yielded something or an item
/// was asked for.
pub open spec fn byte_ping_out<E>(events: Seq<ByteEventModel<E>>) -> bool
    decreases events.len(),
{
    if events.len() == 0 || events.last() is Next || events.last() is Poll {
        false
    } else {
        (events.last() matches ByteEvent::PingSent(Ok(_))) || byte_ping_out(events.drop_last())
    }
}

/// Whether an event brings the stream to its end: the channel is closed, or
/// an interval passes while a ping is out.
pub open spec fn ends_the_stream<E>(
    events: Seq<ByteEventModel<E>>,
    event: ByteEventModel<E>,
) -> bool {
    match event {
        ByteEvent::Next(item) => closes(item),
        ByteEvent::Tick => byte_ping_out(events),
        _ => false,
    }
}

/// Whether one of the events has brought the stream to its end.
pub open spec fn stream_is_over<E>(events: Seq<ByteEventModel<E>>) -> bool
    decreases events.len(),
{
    events.len() > 0 && (ends_the_stream(events.drop_last(), events.last()) || stream_is_over(
        events.drop_last(),
    ))
}

/// What an event calls for, given the events before it.
pub open spec fn byte_called_for<E>(
    events: Seq<ByteEventModel<E>>,
    event: ByteEventModel<E>,
) -> ByteActionModel<E> {
    match event {
        ByteEvent::Poll => if stream_is_over(events) {
            ByteAction::End
        } else {
            ByteAction::Wait
        },
        ByteEvent::Next(Some(Ok(MessageModel::Ping(data)))) => ByteAction::SendPong(
            MessageModel::Pong(data),
        ),
        ByteEvent::Next(item) => if let Some(err) = error_in(item) {
            ByteAction::Yield(Err(err))
        } else if let Some(data) = bytes_in(item) {
            ByteAction::Yield(Ok(data))
        } else if closes(item) {
            ByteAction::End
        } else {
            ByteAction::Wait
        },
        ByteEvent::Tick => if byte_ping_out(events) {
            ByteAction::Yield(
                Err(ErrorModel::Io(ErrorKind::Other, "server failed to respond to pings"@)),
            )
        } else if byte_check_due(events) {
            ByteAction::SendPing(MessageModel::Ping(Seq::empty()))
        } else {
            ByteAction::Wait
        },
        ByteEvent::PongSent(Err(err)) | ByteEvent::PingSent(Err(err)) => ByteAction::Yield(
            Err(ErrorModel::Channel(err)),
        ),
        ByteEvent::PongSent(Ok(_)) | ByteEvent::PingSent(Ok(_)) => ByteAction::Wait,
    }
}

/// The events tell what a stream holds.
proof fn lemma_byte_tracks<E>(ping_interval: Duration, events: Seq<ByteEventModel<E>>)
    requires
        byte_conversation(ByteStreamModel::initial(ping_interval), events),
    ensures
        ({
            let initial = ByteStreamModel::initial(ping_interval);
            let stream = crate::stream_laws::byte_run(initial, events);
            let action = last_byte_action(initial, events);
            &&& stream.ping_interval == ping_interval
            &&& stream.closed == stream_is_over(events)
            &&& !stream.closed ==> stream.ping == (if byte_ping_out(events) {
                Ping::Pending
            } else if byte_check_due(events) {
                Ping::Needed
            } else {
                Ping::NotNeeded
            })
            &&& action is Wait || action is SendPong || action is SendPing ==> !stream.closed
            &&& action is End ==> stream.closed
            &&& action is SendPing ==> byte_check_due(events) && !byte_ping_out(events)
            &&& action is SendPong ==> !byte_check_due(events) && !byte_ping_out(events)
        }),
    decreases events.len(),
{
    if events.len() > 0 {
        lemma_byte_tracks(ping_interval, events.drop_last());
    }
}

/// What a stream of bytes asks for at any time is what the events so far call
/// for.
pub proof fn law_stream_does_what_is_called_for<E>(
    ping_interval: Duration,
    events: Seq<ByteEventModel<E>>,
    event: ByteEventModel<E>,
)
    requires
        byte_conversation(ByteStreamModel::initial(ping_interval), events.push(event)),
    ensures
        crate::stream_laws::byte_run(ByteStreamModel::initial(ping_interval), events).action(event)
            == byte_called_for(events, event),
{
    assert(events.push(event).drop_last() =~= events);
    lemma_byte_tracks(ping_interval, events);
}

/// Only a close message or a missed pong ends a stream of bytes: as long as
/// neither has come about, a poll waits for the channel, whatever has been
/// handed out. After that, every poll finds the end.
pub proof fn law_only_close_and_silence_end_the_stream<E>(
    ping_interval: Duration,
    events: Seq<ByteEventModel<E>>,
)
    requires
        byte_conversation(ByteStreamModel::initial(ping_interval), events.push(ByteEvent::Poll)),
    ensures
        ({
            let stream = crate::stream_laws::byte_run(
                ByteStreamModel::initial(ping_interval),
                events,
            );
            let over = exists|k: int|
                0 <= k < events.len() && ends_the_stream(
                    #[trigger] events.take(k),
                    events[k],
                );
            stream.action(ByteEventModel::<E>::Poll) == (if over {
                ByteActionModel::<E>::End
            } else {
                ByteAction::Wait
            })
        }),
{
    assert(events.push(ByteEvent::Poll).drop_last() =~= events);
    lemma_byte_tracks(ping_interval, events);
    lemma_stream_is_over(events);
}

/// A stream is over if and only if one of the events has ended it.
proof fn lemma_stream_is_over<E>(events: Seq<ByteEventModel<E>>)
    ensures
        stream_is_over(events) <==> exists|k: int|
            0 <= k < events.len() && ends_the_stream(#[trigger] events.take(k), events[k]),
    decreases events.len(),
{
    if events.len() > 0 {
        let earlier = events.drop_last();
        let last = events.len() - 1;
        lemma_stream_is_over(earlier);
        assert(events.take(last) =~= earlier);
        if stream_is_over(earlier) {
            let k = choose|k: int|
                0 <= k < earlier.len() && ends_the_stream(#[trigger] earlier.take(k), earlier[k]);
            assert(events.take(k) =~= earlier.take(k));
            assert(ends_the_stream(events.take(k), events[k]));
        }
        if exists|k: int|
            0 <= k < events.len() && ends_the_stream(#[trigger] events.take(k), events[k]) {
            let k = choose|k: int|
                0 <= k < events.len() && ends_the_stream(#[trigger] events.take(k), events[k]);
            if k < last {
                assert(events.take(k) =~= earlier.take(k));
                assert(ends_the_stream(earlier.take(k), earlier[k]));
            }
        }
    }
}

/// No event but a close message and an interval that passes while a ping is
/// out closes an open stream, and an open stream comes to its end with nothing
/// but a close message. So after data was handed out, the next poll waits for
/// the channel again.
pub proof fn law_data_leaves_the_stream_open<E>(stream: ByteStreamModel, event: ByteEventModel<E>)
    requires
        !stream.closed,
    ensures
        stream.next(event).closed <==> (event matches ByteEvent::Next(item) && closes(item)) || (
        event is Tick && stream.ping == Ping::Pending),
        stream.action(event) is End <==> (event matches ByteEvent::Next(item) && closes(item)),
        stream.action(event) matches ByteAction::Yield(Ok(_)) ==> stream.next(event).action(
            ByteEventModel::<E>::Poll,
        ) == ByteActionModel::<E>::Wait,
{
}

/// A stream of bytes goes on checking the connection at the interval that it
/// was created with.
pub proof fn law_interval_of_stream_is_kept<E>(
    ping_interval: Duration,
    events: Seq<ByteEventModel<E>>,
)
    ensures
        crate::stream_laws::byte_run(
            ByteStreamModel::initial(ping_interval),
            events,
        ).ping_interval == ping_interval,
    decreases events.len(),
{
    if events.len() > 0 {
        law_interval_of_stream_is_kept(ping_interval, events.drop_last());
    }
}

/// An event with an interval that has passed counting as started over.
pub open spec fn started_over<E>(event: EventModel<E>) -> EventModel<E> {
    match event {
        Event::Ping(PingerReply::Tick(Poll::Ready(_))) => Event::Ping(PingerReply::TickReset),
        event => event,
    }
}

/// The events with each interval that has passed counting as started over.
pub open spec fn all_started_over<E>(events: Seq<EventModel<E>>) -> Seq<EventModel<E>> {
    events.map_values(|event: EventModel<E>| started_over(event))
}

/// The settings that a [`Wrapper`][crate::stream::Wrapper] has.
pub open spec fn fixed_settings(ping_interval: Duration) -> BuilderModel {
    BuilderModel { ping_interval: Some(ping_interval), send_pongs: true }
}

/// A wrapper with fixed settings is in a dialogue.
proof fn lemma_wrapper_dialogue<E>(ping_interval: Duration, events: Seq<EventModel<E>>)
    requires
        crate::stream_laws::wrapper_conversation(
            crate::stream::initial_wrapper(ping_interval),
            events,
        ),
    ensures
        ({
            let w = crate::stream::initial_wrapper(ping_interval);
            &&& w == fixed_settings(ping_interval).built()
            &&& crate::stream_laws::wrapper_run(w, events) == crate::wrap_laws::run(
                w,
                all_started_over(events),
            )
            &&& crate::wrap_history_laws::dialogue(w, all_started_over(events))
        }),
    decreases events.len(),
{
    let w = crate::stream::initial_wrapper(ping_interval);
    let all = all_started_over(events);
    if events.len() > 0 {
        let earlier = events.drop_last();
        lemma_wrapper_dialogue(ping_interval, earlier);
        assert(all.drop_last() =~= all_started_over(earlier));
        assert(all.last() == started_over(events.last()));
        if events.len() == 1 {
            assert(events.last() == events[0]);
        } else {
            let first = earlier.drop_last();
            reveal_with_fuel(crate::stream_laws::wrapper_conversation, 3);
            assert(all_started_over(earlier).drop_last() =~= all_started_over(first));
            lemma_wrapper_dialogue(ping_interval, first);
            assert(crate::stream_laws::wrapper_actions(w, earlier).last()
                == crate::stream_laws::wrapper_action(w, first, earlier.last()));
        }
    } else {
        assert(all =~= Seq::empty());
    }
}

/// What a wrapper with fixed settings asks for at any time is what the events
/// so far call for with pings and pongs enabled, except that an interval which
/// has passed is not started over, and that a missed pong is reported as an
/// error of no special class.
pub proof fn law_wrapper_does_what_is_called_for<E>(
    ping_interval: Duration,
    events: Seq<EventModel<E>>,
    event: EventModel<E>,
)
    requires
        crate::stream_laws::wrapper_conversation(
            crate::stream::initial_wrapper(ping_interval),
            events.push(event),
        ),
    ensures
        crate::stream_laws::wrapper_action(
            crate::stream::initial_wrapper(ping_interval),
            events,
            event,
        ) == crate::wrap_history_laws::called_for(
            fixed_settings(ping_interval),
            ErrorKind::Other,
            all_started_over(events),
            started_over(event),
        ),
{
    assert(events.push(event).drop_last() =~= events);
    lemma_wrapper_dialogue(ping_interval, events);
    lemma_wrapper_dialogue(ping_interval, events.push(event));
    assert(all_started_over(events.push(event)) =~= all_started_over(events).push(
        started_over(event),
    ));
    crate::wrap_history_laws::law_dialogue_has_done_what_is_called_for(
        fixed_settings(ping_interval),
        all_started_over(events),
        started_over(event),
    );
}

/// A poll of a wrapper with fixed settings ends for one of three reasons, and
/// with the result that goes with it: the channel's stream had nothing, or
/// nothing any more, or a message for the user; the channel reported an error;
/// or an interval passed while a ping was out.
pub proof fn law_poll_ends_only_for_a_reason<E>(
    ping_interval: Duration,
    events: Seq<EventModel<E>>,
    event: EventModel<E>,
)
    requires
        crate::stream_laws::wrapper_conversation(
            crate::stream::initial_wrapper(ping_interval),
            events.push(event),
        ),
    ensures
        ({
            let action = crate::stream_laws::wrapper_action(
                crate::stream::initial_wrapper(ping_interval),
                events,
                event,
            );
            let past = all_started_over(events);
            let missed = crate::stream_laws::interval_passed(event)
                && crate::wrap_history_laws::check_due(past) && crate::wrap_history_laws::ping_out(
                past,
            );
            &&& action is Return <==> crate::wrap_history_laws::stream_result(event) is Some
                || crate::wrap_history_laws::channel_error(event) is Some || missed
            &&& crate::wrap_history_laws::stream_result(event) matches Some(result) ==> action
                == ActionModel::<E>::Return(result)
            &&& crate::wrap_history_laws::channel_error(event) matches Some(err) ==> action
                == ActionModel::<E>::Return(Poll::Ready(Some(Err(ErrorModel::Channel(err)))))
            &&& missed ==> action == ActionModel::<E>::Return(
                Poll::Ready(
                    Some(
                        Err(
                            ErrorModel::Io(
                                ErrorKind::Other,
                                "server failed to respond to pings"@,
                            ),
                        ),
                    ),
                ),
            )
        }),
{
    law_wrapper_does_what_is_called_for(ping_interval, events, event);
    lemma_never_started_over(ping_interval, events, event);
}

/// A wrapper with fixed settings is never told that the interval was started
/// over.
proof fn lemma_never_started_over<E>(
    ping_interval: Duration,
    events: Seq<EventModel<E>>,
    event: EventModel<E>,
)
    requires
        crate::stream_laws::wrapper_conversation(
            crate::stream::initial_wrapper(ping_interval),
            events.push(event),
        ),
    ensures
        !crate::wrap_laws::interval_passed(event),
{
    let w = crate::stream::initial_wrapper(ping_interval);
    assert(events.push(event).drop_last() =~= events);
    if events.len() > 0 {
        crate::stream_laws::law_interval_runs_on(
            crate::stream_laws::wrapper_run(w, events.drop_last()),
            events.last(),
        );
    } else {
        assert(events.push(event)[0] == event);
    }
}

} // verus!
