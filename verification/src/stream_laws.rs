//! What holds of a [`ByteStream`][crate::stream::ByteStream] and of a
//! [`Wrapper`][crate::stream::Wrapper] over any sequence of events.

#[allow(unused_imports)]
use crate::channel::{ErrorKind, ErrorModel, SinkCall};
#[allow(unused_imports)]
use crate::message::MessageModel;
#[allow(unused_imports)]
use crate::poll::Poll;
#[allow(unused_imports)]
use crate::stream::{ByteAction, ByteActionModel, ByteEvent, ByteEventModel, ByteStreamModel};
#[allow(unused_imports)]
use crate::wrap::{
    Action, ActionModel, Event, EventModel, Ping, PingerCall, PingerReply, WrapperModel,
};
#[allow(unused_imports)]
use std::time::Duration;
use vstd::prelude::*;

verus! {

/// The state after all of the events.
pub open spec fn byte_run<E>(
    stream: ByteStreamModel,
    events: Seq<ByteEventModel<E>>,
) -> ByteStreamModel
    decreases events.len(),
{
    if events.len() == 0 {
        stream
    } else {
        byte_run(stream, events.drop_last()).next(events.last())
    }
}

/// What is asked for after each of the events.
pub open spec fn byte_actions<E>(
    stream: ByteStreamModel,
    events: Seq<ByteEventModel<E>>,
) -> Seq<ByteActionModel<E>>
    decreases events.len(),
{
    if events.len() == 0 {
        Seq::empty()
    } else {
        byte_actions(stream, events.drop_last()).push(
            byte_run(stream, events.drop_last()).action(events.last()),
        )
    }
}

/// The data of the text and binary messages that the channel received, in
/// order; a text counts with its UTF-8 encoding.
pub open spec fn data_arrived<E>(events: Seq<ByteEventModel<E>>) -> Seq<Seq<u8>>
    decreases events.len(),
{
    if events.len() == 0 {
        Seq::empty()
    } else {
        let earlier = data_arrived(events.drop_last());
        match events.last() {
            ByteEvent::Next(Some(Ok(MessageModel::Text(text)))) => earlier.push(
                vstd::utf8::encode_utf8(text),
            ),
            ByteEvent::Next(Some(Ok(MessageModel::Binary(data)))) => earlier.push(data),
            _ => earlier,
        }
    }
}

/// The data that was handed out, in order.
pub open spec fn data_delivered<E>(actions: Seq<ByteActionModel<E>>) -> Seq<Seq<u8>>
    decreases actions.len(),
{
    if actions.len() == 0 {
        Seq::empty()
    } else {
        let earlier = data_delivered(actions.drop_last());
        match actions.last() {
            ByteAction::Yield(Ok(data)) => earlier.push(data),
            _ => earlier,
        }
    }
}

/// The stream hands out exactly the data of the text and binary messages
/// that the channel received, in order.
pub proof fn law_data_is_delivered<E>(
    stream: ByteStreamModel,
    events: Seq<ByteEventModel<E>>,
)
    ensures
        data_delivered(byte_actions(stream, events)) == data_arrived(events),
    decreases events.len(),
{
    if events.len() > 0 {
        law_data_is_delivered(stream, events.drop_last());
        assert(byte_actions(stream, events).drop_last() =~= byte_actions(
            stream,
            events.drop_last(),
        ));
    }
}

/// A ping is answered with a pong of the same payload before anything else
/// happens, and pongs are sent for no other reason.
pub proof fn law_ping_is_answered<E>(
    stream: ByteStreamModel,
    event: ByteEventModel<E>,
    data: Seq<u8>,
)
    ensures
        stream.action(event) == ByteActionModel::<E>::SendPong(MessageModel::Pong(data)) <==> event
            == ByteEventModel::<E>::Next(Some(Ok(MessageModel::Ping(data)))),
{
}

/// A close message ends the stream, whatever state it is in.
pub proof fn law_close_ends_the_stream<E>(stream: ByteStreamModel, event: ByteEventModel<E>)
    requires
        event matches ByteEvent::Next(Some(Ok(MessageModel::Close(_)))),
    ensures
        stream.action(event) == ByteActionModel::<E>::End,
        stream.next(event).closed,
{
}

/// A stream that has ended stays that way however often it is polled.
pub proof fn law_end_is_final<E>(stream: ByteStreamModel)
    requires
        stream.closed,
    ensures
        stream.action(ByteEventModel::<E>::Poll) == ByteActionModel::<E>::End,
        stream.next(ByteEventModel::<E>::Poll) == stream,
{
}

/// An error of the channel is handed out, but does not end the stream: when
/// it is polled next, it waits for the channel again.
pub proof fn law_errors_do_not_end_the_stream<E>(
    stream: ByteStreamModel,
    event: ByteEventModel<E>,
    err: E,
)
    requires
        event == ByteEventModel::<E>::Next(Some(Err(err))) || event == ByteEventModel::<
            E,
        >::PongSent(Err(err)) || event == ByteEventModel::<E>::PingSent(Err(err)),
    ensures
        stream.action(event) == ByteActionModel::<E>::Yield(Err(ErrorModel::Channel(err))),
        stream.next(event).action(ByteEventModel::<E>::Poll) == ByteActionModel::<E>::Wait,
{
}

/// The end of the channel is handed out as an error of its own.
pub proof fn law_end_of_channel_is_an_error<E>(stream: ByteStreamModel)
    ensures
        stream.action(ByteEventModel::<E>::Next(None)) == ByteActionModel::<E>::Yield(
            Err(ErrorModel::AlreadyClosed),
        ),
{
}

/// A peer from which nothing arrives is due to be checked when the interval
/// passes, is sent a ping when it passes again, and is reported when it
/// passes a third time. That ends the stream.
pub proof fn law_silent_peer_ends_the_stream<E>(stream: ByteStreamModel)
    requires
        !stream.closed,
    ensures
        ({
            let events: Seq<ByteEventModel<E>> = seq![
                ByteEvent::Poll,
                ByteEvent::Tick,
                ByteEvent::Tick,
                ByteEvent::PingSent(Ok(())),
                ByteEvent::Tick,
                ByteEvent::Poll,
            ];
            byte_actions(stream, events) == seq![
                ByteActionModel::<E>::Wait,
                ByteAction::Wait,
                ByteAction::SendPing(MessageModel::Ping(Seq::empty())),
                ByteAction::Wait,
                ByteAction::Yield(Err(crate::channel::missed_pong_model(ErrorKind::Other))),
                ByteAction::End,
            ]
        }),
{
    let a: ByteEventModel<E> = ByteEvent::Poll;
    let b: ByteEventModel<E> = ByteEvent::Tick;
    let c: ByteEventModel<E> = ByteEvent::PingSent(Ok(()));
    reveal_with_fuel(byte_run, 7);
    reveal_with_fuel(byte_actions, 7);
    assert(seq![a, b, b, c, b, a].drop_last() =~= seq![a, b, b, c, b]);
    assert(seq![a, b, b, c, b].drop_last() =~= seq![a, b, b, c]);
    assert(seq![a, b, b, c].drop_last() =~= seq![a, b, b]);
    assert(seq![a, b, b].drop_last() =~= seq![a, b]);
    assert(seq![a, b].drop_last() =~= seq![a]);
    assert(seq![a].drop_last() =~= Seq::<ByteEventModel<E>>::empty());
}

/// A ping is sent exactly when the interval passes while the peer is due to be
/// checked. It becomes due only when the interval passes, and is due no more
/// once something arrives or the next item is waited for.
pub proof fn law_ping_only_when_due<E>(stream: ByteStreamModel, event: ByteEventModel<E>)
    ensures
        stream.action(event) is SendPing <==> event is Tick && stream.ping == Ping::Needed,
        stream.next(event).ping == Ping::Needed ==> stream.ping == Ping::Needed || (event is Tick
            && stream.ping == Ping::NotNeeded),
        event is Next ==> stream.next(event).ping == Ping::NotNeeded,
        event is Poll && !stream.closed ==> stream.next(event).ping == Ping::NotNeeded,
{
}

/// A missed pong is reported only while a ping is out, and a ping is out
/// only from when it was sent until something arrives or the next item is
/// waited for.
pub proof fn law_missed_pong_only_while_ping_is_out<E>(
    stream: ByteStreamModel,
    event: ByteEventModel<E>,
)
    ensures
        stream.action(event) == ByteActionModel::<E>::Yield(
            Err(crate::channel::missed_pong_model(ErrorKind::Other)),
        ) ==> stream.ping == Ping::Pending,
        stream.next(event).ping == Ping::Pending ==> stream.ping == Ping::Pending || (event matches
            ByteEvent::PingSent(Ok(_))),
        event is Next ==> stream.next(event).ping == Ping::NotNeeded,
        event is Poll && !stream.closed ==> stream.next(event).ping == Ping::NotNeeded,
{
}

/// Whether the channel had no item after event `j`.
pub open spec fn no_item_since<E>(events: Seq<ByteEventModel<E>>, j: int) -> bool {
    &&& 0 <= j < events.len()
    &&& forall|k: int| j < k < events.len() ==> !(#[trigger] events[k] is Next)
}

/// Whether the interval passed at event `j`, and the channel had no item from
/// then on.
pub open spec fn byte_silent_since<E>(events: Seq<ByteEventModel<E>>, j: int) -> bool {
    no_item_since(events, j) && events[j] is Tick
}

/// Whether a ping was sent at event `j`, and the channel had no item from then
/// on.
pub open spec fn byte_unanswered_since<E>(events: Seq<ByteEventModel<E>>, j: int) -> bool {
    no_item_since(events, j) && (events[j] matches ByteEvent::PingSent(Ok(_)))
}

/// Silence goes on with every event that is not about an item.
proof fn lemma_no_item_goes_on<E>(events: Seq<ByteEventModel<E>>, j: int)
    requires
        events.len() > 0,
        !(events.last() is Next),
    ensures
        no_item_since(events.drop_last(), j) ==> no_item_since(events, j) && events[j]
            == events.drop_last()[j],
{
    let earlier = events.drop_last();
    if no_item_since(earlier, j) {
        assert forall|k: int| j < k < events.len() implies !(#[trigger] events[k] is Next) by {
            if k < earlier.len() {
                assert(!(earlier[k] is Next));
            }
        }
    }
}

/// Why the check of the connection stands where it does.
proof fn lemma_byte_ping_state<E>(ping_interval: Duration, events: Seq<ByteEventModel<E>>)
    ensures
        ({
            let stream = byte_run(ByteStreamModel::initial(ping_interval), events);
            &&& stream.ping == Ping::Needed ==> exists|j: int| byte_silent_since(events, j)
            &&& stream.ping == Ping::Pending ==> exists|j: int| byte_unanswered_since(events, j)
        }),
    decreases events.len(),
{
    if events.len() > 0 {
        let earlier = events.drop_last();
        let last = events.len() - 1;
        lemma_byte_ping_state(ping_interval, earlier);
        if events.last() is Tick {
            assert(byte_silent_since(events, last));
        }
        if events.last() matches ByteEvent::PingSent(Ok(_)) {
            assert(byte_unanswered_since(events, last));
        }
        if !(events.last() is Next) {
            if exists|j: int| byte_silent_since(earlier, j) {
                let j = choose|j: int| byte_silent_since(earlier, j);
                lemma_no_item_goes_on(events, j);
                assert(byte_silent_since(events, j));
            }
            if exists|j: int| byte_unanswered_since(earlier, j) {
                let j = choose|j: int| byte_unanswered_since(earlier, j);
                lemma_no_item_goes_on(events, j);
                assert(byte_unanswered_since(events, j));
            }
        }
    }
}

/// The stream sends a ping only if the interval had passed before, and the
/// channel has had no item since.
pub proof fn law_ping_only_after_silence<E>(
    ping_interval: Duration,
    events: Seq<ByteEventModel<E>>,
    event: ByteEventModel<E>,
)
    requires
        byte_run(ByteStreamModel::initial(ping_interval), events).action(event) is SendPing,
    ensures
        event is Tick,
        exists|j: int| byte_silent_since(events, j),
{
    lemma_byte_ping_state(ping_interval, events);
}

/// The stream reports a missed pong only if a ping had been sent, and the
/// channel has had no item since.
pub proof fn law_missed_pong_only_after_ping<E>(
    ping_interval: Duration,
    events: Seq<ByteEventModel<E>>,
    event: ByteEventModel<E>,
)
    requires
        byte_run(ByteStreamModel::initial(ping_interval), events).action(event)
            == ByteActionModel::<E>::Yield(
            Err(crate::channel::missed_pong_model(ErrorKind::Other)),
        ),
    ensures
        event is Tick,
        exists|j: int| byte_unanswered_since(events, j),
{
    lemma_byte_ping_state(ping_interval, events);
}

/// The state of a wrapper after all of the events.
pub open spec fn wrapper_run<E>(w: WrapperModel, events: Seq<EventModel<E>>) -> WrapperModel
    decreases events.len(),
{
    if events.len() == 0 {
        w
    } else {
        wrapper_run(w, events.drop_last()).next(crate::stream::running_on(events.last()))
    }
}

/// What a wrapper asks for after an event that comes after all of the others.
pub open spec fn wrapper_action<E>(
    w: WrapperModel,
    events: Seq<EventModel<E>>,
    event: EventModel<E>,
) -> ActionModel<E> {
    crate::stream::unclassified(
        wrapper_run(w, events).action(crate::stream::running_on(event)),
    )
}

/// What a wrapper asks for after each of the events.
pub open spec fn wrapper_actions<E>(
    w: WrapperModel,
    events: Seq<EventModel<E>>,
) -> Seq<ActionModel<E>>
    decreases events.len(),
{
    if events.len() == 0 {
        Seq::empty()
    } else {
        wrapper_actions(w, events.drop_last()).push(
            wrapper_action(w, events.drop_last(), events.last()),
        )
    }
}

/// The user of a wrapper sees exactly the text and binary messages that the
/// channel received, unchanged and in order.
pub proof fn law_messages_are_delivered<E>(w: WrapperModel, events: Seq<EventModel<E>>)
    ensures
        crate::wrap_laws::delivered(wrapper_actions(w, events)) == crate::wrap_laws::arrived(
            events,
        ),
    decreases events.len(),
{
    if events.len() > 0 {
        law_messages_are_delivered(w, events.drop_last());
        assert(wrapper_actions(w, events).drop_last() =~= wrapper_actions(w, events.drop_last()));
    }
}

/// Every error of the channel is returned by the poll of the wrapper that
/// ran into it, once and unchanged.
pub proof fn law_errors_are_reported<E>(w: WrapperModel, events: Seq<EventModel<E>>)
    ensures
        crate::wrap_laws::reported_errors(wrapper_actions(w, events))
            == crate::wrap_laws::channel_errors(events),
    decreases events.len(),
{
    if events.len() > 0 {
        law_errors_are_reported(w, events.drop_last());
        assert(wrapper_actions(w, events).drop_last() =~= wrapper_actions(w, events.drop_last()));
    }
}

/// The events as the wrapped wrapper sees them.
pub open spec fn running_on_all<E>(events: Seq<EventModel<E>>) -> Seq<EventModel<E>> {
    events.map_values(|event: EventModel<E>| crate::stream::running_on(event))
}

/// A wrapper does what [`wrap::Wrapper`][crate::wrap::Wrapper] does with
/// pings and pongs enabled when its interval is started over, except for the
/// class of the error that reports a missed pong.
pub proof fn law_runs_like_the_customized_wrapper<E>(
    w: WrapperModel,
    events: Seq<EventModel<E>>,
)
    ensures
        wrapper_run(w, events) == crate::wrap_laws::run(w, running_on_all(events)),
        wrapper_actions(w, events) == crate::wrap_laws::actions(
            w,
            running_on_all(events),
        ).map_values(|action: ActionModel<E>| crate::stream::unclassified(action)),
    decreases events.len(),
{
    let all = running_on_all(events);
    let relabel = |action: ActionModel<E>| crate::stream::unclassified(action);
    if events.len() > 0 {
        law_runs_like_the_customized_wrapper(w, events.drop_last());
        assert(all.drop_last() =~= running_on_all(events.drop_last()));
        let earlier = crate::wrap_laws::actions(w, all.drop_last());
        let last = crate::wrap_laws::run(w, all.drop_last()).action(all.last());
        assert(crate::wrap_laws::actions(w, all) == earlier.push(last));
        assert(earlier.push(last).map_values(relabel) =~= earlier.map_values(relabel).push(
            relabel(last),
        ));
    } else {
        assert(all =~= Seq::empty());
        assert(crate::wrap_laws::actions(w, all).map_values(relabel) =~= Seq::empty());
    }
}

/// A wrapper answers pings and checks the connection at the same interval for
/// as long as it exists.
pub proof fn law_settings_are_kept<E>(ping_interval: Duration, events: Seq<EventModel<E>>)
    ensures
        ({
            let w = wrapper_run(crate::stream::initial_wrapper(ping_interval), events);
            w.pong is Some && w.ping is Some && w.ping->0.next_ping == ping_interval
        }),
{
    let w = crate::stream::initial_wrapper(ping_interval);
    law_runs_like_the_customized_wrapper(w, events);
    crate::wrap_laws::law_settings_are_kept(w, running_on_all(events));
}

/// Whether each event answers the action before it, starting with a poll.
pub open spec fn wrapper_conversation<E>(w: WrapperModel, events: Seq<EventModel<E>>) -> bool
    decreases events.len(),
{
    if events.len() == 0 {
        true
    } else if events.len() == 1 {
        events[0] is Poll
    } else {
        &&& wrapper_conversation(w, events.drop_last())
        &&& crate::wrap_laws::answers(
            wrapper_actions(w, events.drop_last()).last(),
            events.last(),
        )
    }
}

/// Whether the event says that the ping interval has passed.
pub open spec fn interval_passed<E>(event: EventModel<E>) -> bool {
    event matches Event::Ping(PingerReply::Tick(Poll::Ready(_)))
}

/// Whether the interval passed at event `j`, and the channel received no
/// message from then on.
pub open spec fn silent_since<E>(events: Seq<EventModel<E>>, j: int) -> bool {
    &&& 0 <= j < events.len()
    &&& interval_passed(events[j])
    &&& forall|k: int|
        j < k < events.len() ==> crate::wrap_laws::message_of(#[trigger] events[k]) is None
}

/// Whether a ping was issued when the interval passed at event `j`, and the
/// channel received no message from then on.
pub open spec fn unanswered_since<E>(w: WrapperModel, events: Seq<EventModel<E>>, j: int) -> bool {
    &&& silent_since(events, j)
    &&& wrapper_action(w, events.take(j), events[j]) == ActionModel::<E>::Ping(
        PingerCall::Fresh(SinkCall::PollReady),
    )
}

/// Silence goes on with every event that is not about a message.
proof fn lemma_silence_goes_on<E>(w: WrapperModel, events: Seq<EventModel<E>>, j: int)
    requires
        events.len() > 0,
        crate::wrap_laws::message_of(events.last()) is None,
    ensures
        silent_since(events.drop_last(), j) ==> silent_since(events, j),
        unanswered_since(w, events.drop_last(), j) ==> unanswered_since(w, events, j),
{
    let earlier = events.drop_last();
    if silent_since(earlier, j) {
        assert forall|k: int| j < k < events.len() implies crate::wrap_laws::message_of(
            #[trigger] events[k],
        ) is None by {
            if k < earlier.len() {
                assert(crate::wrap_laws::message_of(earlier[k]) is None);
            }
        }
        assert(earlier.take(j) =~= events.take(j));
    }
}

/// Why the state of the pings is what it is.
proof fn lemma_ping_state<E>(ping_interval: Duration, events: Seq<EventModel<E>>)
    requires
        wrapper_conversation(crate::stream::initial_wrapper(ping_interval), events),
    ensures
        ({
            let w = crate::stream::initial_wrapper(ping_interval);
            &&& wrapper_run(w, events).ping matches Some(pinger) ==> {
                &&& pinger.ping_state != Ping::NotNeeded ==> exists|j: int|
                    silent_since(events, j)
                &&& pinger.ping_state == Ping::Pending ==> exists|j: int|
                    unanswered_since(w, events, j)
            }
            &&& events.len() > 0 ==> (wrapper_actions(w, events).last() matches Action::Ping(
                PingerCall::Fresh(_),
            ) ==> exists|j: int| unanswered_since(w, events, j))
        }),
    decreases events.len(),
{
    let w = crate::stream::initial_wrapper(ping_interval);
    if events.len() > 0 {
        let earlier = events.drop_last();
        let last = events.len() - 1;
        lemma_ping_state(ping_interval, earlier);
        assert(events.take(last) =~= earlier);
        if interval_passed(events.last()) {
            assert(silent_since(events, last));
            if wrapper_run(w, earlier).ping matches Some(pinger) && pinger.ping_state
                == Ping::Needed {
                assert(unanswered_since(w, events, last));
            }
        } else if crate::wrap_laws::message_of(events.last()) is None {
            if exists|j: int| silent_since(earlier, j) {
                let j = choose|j: int| silent_since(earlier, j);
                lemma_silence_goes_on(w, events, j);
                assert(silent_since(events, j));
            }
            if exists|j: int| unanswered_since(w, earlier, j) {
                let j = choose|j: int| unanswered_since(w, earlier, j);
                lemma_silence_goes_on(w, events, j);
                assert(unanswered_since(w, events, j));
            }
        }
    }
}

/// A wrapper issues a ping only if the channel received nothing for a whole
/// interval: the interval had passed before, and no message has arrived
/// since.
pub proof fn law_wrapper_ping_only_after_silence<E>(
    ping_interval: Duration,
    events: Seq<EventModel<E>>,
    event: EventModel<E>,
)
    requires
        wrapper_conversation(crate::stream::initial_wrapper(ping_interval), events.push(event)),
        wrapper_action(crate::stream::initial_wrapper(ping_interval), events, event)
            == ActionModel::<E>::Ping(PingerCall::Fresh(SinkCall::PollReady)),
    ensures
        interval_passed(event),
        exists|j: int| silent_since(events, j),
{
    assert(events.push(event).drop_last() =~= events);
    lemma_ping_state(ping_interval, events);
}

/// A wrapper reports a missed pong only if a ping was issued when the interval
/// had passed before, and no message has arrived since.
pub proof fn law_wrapper_missed_pong_only_after_ping<E>(
    ping_interval: Duration,
    events: Seq<EventModel<E>>,
    event: EventModel<E>,
)
    requires
        wrapper_conversation(crate::stream::initial_wrapper(ping_interval), events.push(event)),
        wrapper_action(crate::stream::initial_wrapper(ping_interval), events, event)
            == crate::wrap::failure::<E>(crate::channel::missed_pong_model(ErrorKind::Other)),
    ensures
        interval_passed(event),
        exists|j: int|
            unanswered_since(crate::stream::initial_wrapper(ping_interval), events, j),
{
    assert(events.push(event).drop_last() =~= events);
    lemma_ping_state(ping_interval, events);
}

/// How often the ping interval has passed.
pub open spec fn intervals<E>(events: Seq<EventModel<E>>) -> nat
    decreases events.len(),
{
    if events.len() == 0 {
        0
    } else {
        let earlier = intervals(events.drop_last());
        if interval_passed(events.last()) {
            earlier + 1
        } else {
            earlier
        }
    }
}

/// How the state of the pings goes back and forth while nothing arrives.
proof fn lemma_quiet_state<E>(ping_interval: Duration, events: Seq<EventModel<E>>)
    requires
        wrapper_conversation(crate::stream::initial_wrapper(ping_interval), events),
        crate::wrap_laws::quiet(events),
    ensures
        ({
            let w = crate::stream::initial_wrapper(ping_interval);
            let n = intervals(events);
            let issuing = events.len() > 0 && (wrapper_actions(w, events).last() matches Action::Ping(
                PingerCall::Fresh(_),
            ));
            &&& wrapper_run(w, events).ping matches Some(pinger) && pinger.ping_state == (if n
                == 0 {
                Ping::NotNeeded
            } else if n % 2 == 1 || issuing {
                Ping::Needed
            } else {
                Ping::Pending
            })
            &&& issuing ==> n > 0 && n % 2 == 0
        }),
    decreases events.len(),
{
    if events.len() > 0 {
        let earlier = events.drop_last();
        assert(crate::wrap_laws::quiet(earlier)) by {
            assert forall|k: int| 0 <= k < earlier.len() implies crate::wrap_laws::message_of(
                #[trigger] earlier[k],
            ) is None && earlier[k].error() is None by {
                assert(earlier[k] == events[k]);
            }
        }
        assert(crate::wrap_laws::message_of(events[events.len() - 1]) is None);
        lemma_quiet_state(ping_interval, earlier);
    }
}

/// While nothing arrives and the channel works, the first interval that
/// passes makes the peer of a wrapper due to be checked, each second one has
/// a ping issued, and the one after that reports the peer. This goes on for
/// as long as the reports are ignored.
pub proof fn law_silent_peer_is_reported<E>(
    ping_interval: Duration,
    events: Seq<EventModel<E>>,
    event: EventModel<E>,
)
    requires
        wrapper_conversation(crate::stream::initial_wrapper(ping_interval), events.push(event)),
        crate::wrap_laws::quiet(events),
        interval_passed(event),
    ensures
        ({
            let w = crate::stream::initial_wrapper(ping_interval);
            let n = intervals(events) + 1;
            let action = wrapper_action(w, events, event);
            if n == 1 {
                action == ActionModel::<E>::PollNext
            } else if n % 2 == 0 {
                action == ActionModel::<E>::Ping(PingerCall::Fresh(SinkCall::PollReady))
            } else {
                action == crate::wrap::failure::<E>(
                    crate::channel::missed_pong_model(ErrorKind::Other),
                )
            }
        }),
{
    assert(events.push(event).drop_last() =~= events);
    lemma_quiet_state(ping_interval, events);
}

/// A wrapper never starts the interval over.
pub proof fn law_interval_runs_on<E>(w: WrapperModel, event: EventModel<E>)
    ensures
        crate::stream::unclassified(w.action(crate::stream::running_on(event)))
            != ActionModel::<E>::Ping(PingerCall::ResetTick),
{
}

} // verus!
