//! What holds of a [`Wrapper`][crate::wrap::Wrapper] over any sequence of
//! events.

#[allow(unused_imports)]
use crate::channel::{ErrorKind, ErrorModel, SinkCall, SinkReply};
#[allow(unused_imports)]
use crate::message::{MessageModel, UserModel};
#[allow(unused_imports)]
use crate::poll::Poll;
#[allow(unused_imports)]
use crate::send::{Overrun, SendMessageState};
#[allow(unused_imports)]
use crate::wrap::{
    Action, ActionModel, Event, EventModel, Ping, PingerCall, PingerReply, WrapperModel,
};
use vstd::prelude::*;

verus! {

/// The state after all of the events.
pub open spec fn run<E>(w: WrapperModel, events: Seq<EventModel<E>>) -> WrapperModel
    decreases events.len(),
{
    if events.len() == 0 {
        w
    } else {
        run(w, events.drop_last()).next(events.last())
    }
}

/// What is asked for after each of the events.
pub open spec fn actions<E>(w: WrapperModel, events: Seq<EventModel<E>>) -> Seq<ActionModel<E>>
    decreases events.len(),
{
    if events.len() == 0 {
        Seq::empty()
    } else {
        actions(w, events.drop_last()).push(run(w, events.drop_last()).action(events.last()))
    }
}

/// The message for the user in what the channel received, if it is one.
pub open spec fn user_message(message: MessageModel) -> Option<UserModel> {
    match message {
        MessageModel::Text(data) => Some(UserModel::Text(data)),
        MessageModel::Binary(data) => Some(UserModel::Binary(data)),
        _ => None,
    }
}

/// The message that the channel received, if the event is about one.
pub open spec fn message_of<E>(event: EventModel<E>) -> Option<MessageModel> {
    match event {
        Event::Next(Poll::Ready(Some(Ok(message)))) => Some(message),
        _ => None,
    }
}

/// The text and binary messages that the channel received, in order.
pub open spec fn arrived<E>(events: Seq<EventModel<E>>) -> Seq<UserModel>
    decreases events.len(),
{
    if events.len() == 0 {
        Seq::empty()
    } else {
        let earlier = arrived(events.drop_last());
        match message_of(events.last()) {
            Some(message) => match user_message(message) {
                Some(user) => earlier.push(user),
                None => earlier,
            },
            None => earlier,
        }
    }
}

/// The messages that polls returned, in order.
pub open spec fn delivered<E>(actions: Seq<ActionModel<E>>) -> Seq<UserModel>
    decreases actions.len(),
{
    if actions.len() == 0 {
        Seq::empty()
    } else {
        let earlier = delivered(actions.drop_last());
        match actions.last() {
            Action::Return(Poll::Ready(Some(Ok(message)))) => earlier.push(message),
            _ => earlier,
        }
    }
}

/// The user sees exactly the text and binary messages that the channel
/// received, unchanged and in order: none is lost, none is repeated, and no
/// control message gets through.
pub proof fn law_messages_are_delivered<E>(w: WrapperModel, events: Seq<EventModel<E>>)
    ensures
        delivered(actions(w, events)) == arrived(events),
    decreases events.len(),
{
    if events.len() > 0 {
        law_messages_are_delivered(w, events.drop_last());
        let all = actions(w, events);
        assert(all.drop_last() =~= actions(w, events.drop_last()));
    }
}

/// A message that one user sends arrives at another as the same message.
pub proof fn law_sent_message_arrives(message: crate::message::Message)
    ensures
        ({
            let carried: crate::message::WebSocketMessage =
                vstd::std_specs::convert::FromSpec::from_spec(message);
            user_message(carried@) == Some(message@)
        }),
{
}

/// The errors that the channel reported, in order.
pub open spec fn channel_errors<E>(events: Seq<EventModel<E>>) -> Seq<E>
    decreases events.len(),
{
    if events.len() == 0 {
        Seq::empty()
    } else {
        let earlier = channel_errors(events.drop_last());
        match events.last().error() {
            Some(err) => earlier.push(err),
            None => earlier,
        }
    }
}

/// The errors of the channel that polls returned, in order.
pub open spec fn reported_errors<E>(actions: Seq<ActionModel<E>>) -> Seq<E>
    decreases actions.len(),
{
    if actions.len() == 0 {
        Seq::empty()
    } else {
        let earlier = reported_errors(actions.drop_last());
        match actions.last() {
            Action::Return(Poll::Ready(Some(Err(ErrorModel::Channel(err))))) => earlier.push(err),
            _ => earlier,
        }
    }
}

/// Every error of the channel, whether on the stream or on the sink, is
/// returned by the poll that ran into it, once and unchanged.
pub proof fn law_errors_are_reported<E>(w: WrapperModel, events: Seq<EventModel<E>>)
    ensures
        reported_errors(actions(w, events)) == channel_errors(events),
    decreases events.len(),
{
    if events.len() > 0 {
        law_errors_are_reported(w, events.drop_last());
        let all = actions(w, events);
        assert(all.drop_last() =~= actions(w, events.drop_last()));
    }
}

/// A poll is pending exactly when the channel's stream is, and the stream of
/// messages ends exactly when the channel's does.
pub proof fn law_polls_end_with_the_channel<E>(w: WrapperModel, event: EventModel<E>)
    ensures
        w.action(event) == (ActionModel::<E>::Return(Poll::Pending)) <==> event == EventModel::<E>::Next(Poll::Pending),
        w.action(event) == (ActionModel::<E>::Return(Poll::Ready(None))) <==> event == EventModel::<E>::Next(Poll::Ready(None)),
{
}

/// Whether an action is about pongs.
pub open spec fn about_pongs<E>(action: ActionModel<E>) -> bool {
    action is Pong || action is Reply
}

/// Whether an action reports a ping that was left without an answer.
pub open spec fn reports_missed_pong<E>(action: ActionModel<E>) -> bool {
    action == crate::wrap::failure::<E>(crate::channel::missed_pong_model(ErrorKind::TimedOut))
}

/// When pongs are disabled, nothing is ever done about them.
pub proof fn law_no_pongs_when_disabled<E>(w: WrapperModel, events: Seq<EventModel<E>>)
    requires
        w.pong is None,
    ensures
        run(w, events).pong is None,
        forall|i: int|
            0 <= i < events.len() ==> !about_pongs(#[trigger] actions(w, events)[i]),
    decreases events.len(),
{
    if events.len() > 0 {
        law_no_pongs_when_disabled(w, events.drop_last());
        lemma_actions_len(w, events.drop_last());
        let earlier = actions(w, events.drop_last());
        assert forall|i: int| 0 <= i < events.len() implies !about_pongs(
            #[trigger] actions(w, events)[i],
        ) by {
            if i < events.len() - 1 {
                assert(actions(w, events)[i] == earlier[i]);
            }
        }
    }
}

/// When pings are disabled, nothing is ever done about them: no ping is
/// sent, the timer is left alone, and no missed pong is reported.
pub proof fn law_no_pings_when_disabled<E>(w: WrapperModel, events: Seq<EventModel<E>>)
    requires
        w.ping is None,
    ensures
        run(w, events).ping is None,
        forall|i: int|
            0 <= i < events.len() ==> !(#[trigger] actions(w, events)[i] is Ping)
                && !reports_missed_pong(actions(w, events)[i]),
    decreases events.len(),
{
    if events.len() > 0 {
        law_no_pings_when_disabled(w, events.drop_last());
        lemma_actions_len(w, events.drop_last());
        let earlier = actions(w, events.drop_last());
        assert forall|i: int| 0 <= i < events.len() implies !(#[trigger] actions(w, events)[i]
            is Ping) && !reports_missed_pong(actions(w, events)[i]) by {
            if i < events.len() - 1 {
                assert(actions(w, events)[i] == earlier[i]);
            }
        }
    }
}

/// Whether pongs and pings are sent, and how often the connection is checked,
/// is settled once a wrapper is built.
pub proof fn law_settings_are_kept<E>(w: WrapperModel, events: Seq<EventModel<E>>)
    ensures
        run(w, events).pong is Some <==> w.pong is Some,
        run(w, events).ping is Some <==> w.ping is Some,
        w.ping is Some ==> run(w, events).ping->0.next_ping == w.ping->0.next_ping,
    decreases events.len(),
{
    if events.len() > 0 {
        law_settings_are_kept(w, events.drop_last());
    }
}

/// There is an action for each event.
proof fn lemma_actions_len<E>(w: WrapperModel, events: Seq<EventModel<E>>)
    ensures
        actions(w, events).len() == events.len(),
    decreases events.len(),
{
    if events.len() > 0 {
        lemma_actions_len(w, events.drop_last());
    }
}

/// An action depends on the events up to its own alone.
proof fn lemma_action_at<E>(w: WrapperModel, events: Seq<EventModel<E>>, i: int)
    requires
        0 <= i < events.len(),
    ensures
        actions(w, events).len() == events.len(),
        actions(w, events)[i] == run(w, events.take(i)).action(events[i]),
    decreases events.len(),
{
    lemma_actions_len(w, events);
    lemma_actions_len(w, events.drop_last());
    if i < events.len() - 1 {
        lemma_action_at(w, events.drop_last(), i);
        assert(events.drop_last().take(i) =~= events.take(i));
    } else {
        assert(events.take(i) =~= events.drop_last());
    }
}

impl WrapperModel {
    /// What holds of a wrapper at all times: the slot for pongs holds
    /// nothing but pongs, and that for pings nothing but empty pings.
    pub open spec fn well_formed(self) -> bool {
        &&& self.pong_slot() matches SendMessageState::Pending(message) ==> message is Pong
        &&& self.ping matches Some(pinger) ==> (pinger.ping matches SendMessageState::Pending(
            message,
        ) ==> message == MessageModel::Ping(Seq::empty()))
    }
}

/// A wrapper is well formed when it has been built, and no event changes
/// that.
pub proof fn law_well_formed<E>(
    builder: crate::wrap::BuilderModel,
    events: Seq<EventModel<E>>,
)
    ensures
        run(builder.built(), events).well_formed(),
    decreases events.len(),
{
    if events.len() > 0 {
        law_well_formed(builder, events.drop_last());
    }
}

/// The message that an action hands to the sink, if it does so.
pub open spec fn sent<E>(action: ActionModel<E>) -> Option<MessageModel> {
    match action {
        Action::Pong(SinkCall::StartSend(message)) => Some(message),
        Action::Ping(PingerCall::Queued(SinkCall::StartSend(message))) => Some(message),
        Action::Ping(PingerCall::Fresh(SinkCall::StartSend(message))) => Some(message),
        Action::Reply(SinkCall::StartSend(message)) => Some(message),
        _ => None,
    }
}

/// The payload of the ping that the channel received last.
pub open spec fn last_ping<E>(events: Seq<EventModel<E>>) -> Option<Seq<u8>>
    decreases events.len(),
{
    if events.len() == 0 {
        None
    } else {
        match message_of(events.last()) {
            Some(MessageModel::Ping(data)) => Some(data),
            _ => last_ping(events.drop_last()),
        }
    }
}

/// A pong that waits to be sent answers the last ping.
proof fn lemma_pending_pong<E>(builder: crate::wrap::BuilderModel, events: Seq<EventModel<E>>)
    ensures
        run(builder.built(), events).pong_slot() matches SendMessageState::Pending(message)
            ==> last_ping(events) is Some && message == MessageModel::Pong(
            last_ping(events).unwrap(),
        ),
    decreases events.len(),
{
    if events.len() > 0 {
        lemma_pending_pong(builder, events.drop_last());
    }
}

/// A wrapper sends nothing of its own but empty pings, and pongs that carry
/// the payload of the last ping that the channel received.
pub proof fn law_only_answers_and_pings_are_sent<E>(
    builder: crate::wrap::BuilderModel,
    events: Seq<EventModel<E>>,
    i: int,
)
    requires
        0 <= i < events.len(),
    ensures
        match sent(actions(builder.built(), events)[i]) {
            None => true,
            Some(MessageModel::Ping(data)) => data == Seq::<u8>::empty(),
            Some(MessageModel::Pong(data)) => last_ping(events.take(i)) == Some(data),
            Some(_) => false,
        },
{
    lemma_action_at(builder.built(), events, i);
    lemma_pending_pong(builder, events.take(i));
    law_well_formed(builder, events.take(i));
}

/// How many pings the channel received.
pub open spec fn pings_received<E>(events: Seq<EventModel<E>>) -> nat
    decreases events.len(),
{
    if events.len() == 0 {
        0
    } else {
        let earlier = pings_received(events.drop_last());
        match message_of(events.last()) {
            Some(MessageModel::Ping(_)) => earlier + 1,
            _ => earlier,
        }
    }
}

/// How many pongs were handed to the sink.
pub open spec fn pongs_sent<E>(actions: Seq<ActionModel<E>>) -> nat
    decreases actions.len(),
{
    if actions.len() == 0 {
        0
    } else {
        let earlier = pongs_sent(actions.drop_last());
        match sent(actions.last()) {
            Some(MessageModel::Pong(_)) => earlier + 1,
            _ => earlier,
        }
    }
}

/// Counts a pong that waits to be sent as well.
proof fn lemma_pongs_and_pending<E>(
    builder: crate::wrap::BuilderModel,
    events: Seq<EventModel<E>>,
)
    ensures
        pongs_sent(actions(builder.built(), events)) + (if run(builder.built(), events).pong_slot()
            is Pending {
            1nat
        } else {
            0nat
        }) <= pings_received(events),
    decreases events.len(),
{
    if events.len() > 0 {
        let w = builder.built();
        lemma_pongs_and_pending(builder, events.drop_last());
        law_well_formed(builder, events.drop_last());
        assert(actions(w, events).drop_last() =~= actions(w, events.drop_last()));
    }
}

/// No ping is answered twice.
pub proof fn law_at_most_one_pong_per_ping<E>(
    builder: crate::wrap::BuilderModel,
    events: Seq<EventModel<E>>,
)
    ensures
        pongs_sent(actions(builder.built(), events)) <= pings_received(events),
{
    lemma_pongs_and_pending(builder, events);
}

/// When pongs are enabled, a ping is answered at once if the sink is ready:
/// the sink is asked, it is handed a pong with the same payload, and then
/// receiving goes on.
pub proof fn law_ping_is_answered<E>(w: WrapperModel, data: Seq<u8>)
    requires
        w.pong is Some,
    ensures
        ({
            let ping: EventModel<E> = Event::Next(Poll::Ready(Some(Ok(MessageModel::Ping(data)))));
            let ready: EventModel<E> = Event::Reply(SinkReply::Ready(Poll::Ready(Ok(()))));
            let accepted: EventModel<E> = Event::Reply(SinkReply::Sent(Ok(())));
            let events = seq![ping, ready, accepted];
            &&& actions(w, events) == seq![
                ActionModel::<E>::Reply(SinkCall::PollReady),
                Action::Reply(SinkCall::StartSend(MessageModel::Pong(data))),
                Action::PollNext,
            ]
            &&& run(w, events).pong == Some(SendMessageState::<MessageModel>::Flush)
        }),
{
    let ping: EventModel<E> = Event::Next(Poll::Ready(Some(Ok(MessageModel::Ping(data)))));
    let ready: EventModel<E> = Event::Reply(SinkReply::Ready(Poll::Ready(Ok(()))));
    let accepted: EventModel<E> = Event::Reply(SinkReply::Sent(Ok(())));
    let events = seq![ping, ready, accepted];
    lemma_three(w, ping, ready, accepted);
}

/// Unfolds a run of three events.
proof fn lemma_three<E>(
    w: WrapperModel,
    a: EventModel<E>,
    b: EventModel<E>,
    c: EventModel<E>,
)
    ensures
        run(w, seq![a, b, c]) == w.next(a).next(b).next(c),
        actions(w, seq![a, b, c]) == seq![
            w.action(a),
            w.next(a).action(b),
            w.next(a).next(b).action(c),
        ],
{
    reveal_with_fuel(run, 4);
    reveal_with_fuel(actions, 4);
    assert(seq![a, b, c].drop_last() =~= seq![a, b]);
    assert(seq![a, b].drop_last() =~= seq![a]);
    assert(seq![a].drop_last() =~= Seq::<EventModel<E>>::empty());
}

/// A pong for which the sink was not ready is kept, and the next poll
/// begins with it.
pub proof fn law_busy_sink_delays_the_pong<E>(w: WrapperModel, message: MessageModel)
    requires
        w.pong == Some(SendMessageState::Pending(message)),
    ensures
        ({
            let busy: EventModel<E> = Event::Reply(SinkReply::Ready(Poll::Pending));
            let poll: EventModel<E> = Event::Poll;
            let ready: EventModel<E> = Event::Pong(SinkReply::Ready(Poll::Ready(Ok(()))));
            actions(w, seq![busy, poll, ready]) == seq![
                ActionModel::<E>::PollNext,
                Action::Pong(SinkCall::PollReady),
                Action::Pong(SinkCall::StartSend(message)),
            ]
        }),
{
    let busy: EventModel<E> = Event::Reply(SinkReply::Ready(Poll::Pending));
    let poll: EventModel<E> = Event::Poll;
    let ready: EventModel<E> = Event::Pong(SinkReply::Ready(Poll::Ready(Ok(()))));
    lemma_three(w, busy, poll, ready);
}

/// The slot that pings are sent from; nothing is ever in it when pings are
/// not sent.
pub open spec fn ping_slot(w: WrapperModel) -> SendMessageState<MessageModel> {
    match w.ping {
        Some(pinger) => pinger.ping,
        None => SendMessageState::Unused,
    }
}

/// Whether the event is the sink's answer to a message that it was handed.
pub open spec fn about_handover<E>(event: EventModel<E>) -> bool {
    match event {
        Event::Pong(reply) => reply is Sent,
        Event::Ping(PingerReply::Queued(reply)) => reply is Sent,
        Event::Ping(PingerReply::Fresh(reply)) => reply is Sent,
        Event::Reply(reply) => reply is Sent,
        _ => false,
    }
}

/// No ping or pong gets lost without a word: one that waits to be sent either
/// goes on waiting, or is handed to the sink, or ends with an error of the
/// sink, or is told of as an overrun. A message is not in its slot any more
/// when the sink answers to having been handed it.
pub proof fn law_lost_messages_are_told_of<E>(
    w: WrapperModel,
    event: EventModel<E>,
    message: MessageModel,
)
    requires
        !about_handover(event),
    ensures
        ({
            let told = sent(w.action(event)) == Some(message) || event.error() is Some
                || w.overrun(event) == Some(Overrun::Unsent(message));
            let waiting = SendMessageState::Pending(message);
            &&& w.pong_slot() == waiting ==> w.next(event).pong_slot() == waiting || told
            &&& ping_slot(w) == waiting ==> ping_slot(w.next(event)) == waiting || told
        }),
{
}

/// Whether the event says that the ping interval has passed.
pub open spec fn interval_passed<E>(event: EventModel<E>) -> bool {
    event == EventModel::<E>::Ping(PingerReply::TickReset)
}

/// Whether the interval passed at event `j`, and the channel received no
/// message from then on.
pub open spec fn silent_since<E>(events: Seq<EventModel<E>>, j: int) -> bool {
    &&& 0 <= j < events.len()
    &&& interval_passed(events[j])
    &&& forall|k: int| j < k < events.len() ==> message_of(#[trigger] events[k]) is None
}

/// Whether a ping was issued when the interval passed at event `j`, and the
/// channel received no message from then on.
pub open spec fn unanswered_since<E>(w: WrapperModel, events: Seq<EventModel<E>>, j: int) -> bool {
    &&& silent_since(events, j)
    &&& run(w, events.take(j)).action(events[j]) == ActionModel::<E>::Ping(PingerCall::Fresh(SinkCall::PollReady))
}

/// Whether a reply answers a call to the sink.
pub open spec fn sink_answers<E>(call: SinkCall<MessageModel>, reply: SinkReply<E>) -> bool {
    match (call, reply) {
        (SinkCall::PollReady, SinkReply::Ready(_)) => true,
        (SinkCall::StartSend(_), SinkReply::Sent(_)) => true,
        (SinkCall::PollFlush, SinkReply::Flushed(_)) => true,
        _ => false,
    }
}

/// Whether an event answers an action.
pub open spec fn answers<E>(action: ActionModel<E>, event: EventModel<E>) -> bool {
    match (action, event) {
        (Action::Pong(call), Event::Pong(reply)) => sink_answers(call, reply),
        (Action::Ping(PingerCall::Queued(call)), Event::Ping(PingerReply::Queued(reply))) =>
            sink_answers(call, reply),
        (Action::Ping(PingerCall::PollTick), Event::Ping(PingerReply::Tick(_))) => true,
        (Action::Ping(PingerCall::ResetTick), Event::Ping(PingerReply::TickReset)) => true,
        (Action::Ping(PingerCall::Fresh(call)), Event::Ping(PingerReply::Fresh(reply))) =>
            sink_answers(call, reply),
        (Action::PollNext, Event::Next(_)) => true,
        (Action::Reply(call), Event::Reply(reply)) => sink_answers(call, reply),
        (Action::Return(_), Event::Poll) => true,
        _ => false,
    }
}

/// Whether each event answers the action before it, starting with a poll.
pub open spec fn conversation<E>(w: WrapperModel, events: Seq<EventModel<E>>) -> bool
    decreases events.len(),
{
    if events.len() == 0 {
        true
    } else if events.len() == 1 {
        events[0] is Poll
    } else {
        &&& conversation(w, events.drop_last())
        &&& answers(actions(w, events.drop_last()).last(), events.last())
    }
}

/// Silence goes on with every event that is not about a message.
proof fn lemma_silence_goes_on<E>(w: WrapperModel, events: Seq<EventModel<E>>, j: int)
    requires
        events.len() > 0,
        message_of(events.last()) is None,
    ensures
        silent_since(events.drop_last(), j) ==> silent_since(events, j),
        unanswered_since(w, events.drop_last(), j) ==> unanswered_since(w, events, j),
{
    let earlier = events.drop_last();
    if silent_since(earlier, j) {
        assert forall|k: int| j < k < events.len() implies message_of(
            #[trigger] events[k],
        ) is None by {
            if k < earlier.len() {
                assert(message_of(earlier[k]) is None);
            }
        }
        assert(earlier.take(j) =~= events.take(j));
    }
}

/// Why the state of the pings is what it is.
proof fn lemma_ping_state<E>(builder: crate::wrap::BuilderModel, events: Seq<EventModel<E>>)
    requires
        conversation(builder.built(), events),
    ensures
        run(builder.built(), events).ping matches Some(pinger) ==> {
            &&& pinger.ping_state != Ping::NotNeeded ==> exists|j: int| silent_since(events, j)
            &&& pinger.ping_state == Ping::Pending ==> exists|j: int|
                unanswered_since(builder.built(), events, j)
        },
        events.len() > 0 ==> (actions(builder.built(), events).last() matches Action::Ping(
            PingerCall::Fresh(_),
        ) ==> exists|j: int| unanswered_since(builder.built(), events, j)),
    decreases events.len(),
{
    let w = builder.built();
    if events.len() > 0 {
        let earlier = events.drop_last();
        let last = events.len() - 1;
        lemma_ping_state(builder, earlier);
        assert(events.take(last) =~= earlier);
        if interval_passed(events.last()) {
            assert(silent_since(events, last));
            if run(w, earlier).ping matches Some(pinger) && pinger.ping_state == Ping::Needed {
                assert(unanswered_since(w, events, last));
            }
        } else if message_of(events.last()) is None {
            if exists|j: int| silent_since(earlier, j) {
                let j = choose|j: int| silent_since(earlier, j);
                lemma_silence_goes_on(w, events, j);
                assert(silent_since(events, j));
            }
            if exists|j: int| unanswered_since(w, earlier, j) {
                let j = choose|j: int| unanswered_since(w, earlier, j);
                lemma_silence_goes_on(w, events, j);
                assert(unanswered_since(w, events, j));
            }
        }
    }
}

/// A ping is issued only if the channel received nothing for a whole
/// interval: the interval had passed before, and no message has arrived
/// since.
pub proof fn law_ping_only_after_silence<E>(
    builder: crate::wrap::BuilderModel,
    events: Seq<EventModel<E>>,
    event: EventModel<E>,
)
    requires
        conversation(builder.built(), events.push(event)),
        run(builder.built(), events).action(event) == ActionModel::<E>::Ping(
            PingerCall::Fresh(SinkCall::PollReady),
        ),
    ensures
        interval_passed(event),
        exists|j: int| silent_since(events, j),
{
    assert(events.push(event).drop_last() =~= events);
    lemma_ping_state(builder, events);
}

/// A missed pong is reported only if a ping was issued when the interval
/// had passed before, and no message has arrived since.
pub proof fn law_missed_pong_only_after_ping<E>(
    builder: crate::wrap::BuilderModel,
    events: Seq<EventModel<E>>,
    event: EventModel<E>,
)
    requires
        conversation(builder.built(), events.push(event)),
        reports_missed_pong(run(builder.built(), events).action(event)),
    ensures
        interval_passed(event),
        exists|j: int| unanswered_since(builder.built(), events, j),
{
    assert(events.push(event).drop_last() =~= events);
    lemma_ping_state(builder, events);
}

/// How often the ping interval has passed.
pub open spec fn intervals<E>(events: Seq<EventModel<E>>) -> nat
    decreases events.len(),
{
    if events.len() == 0 {
        0
    } else {
        let earlier = intervals(events.drop_last());
        if interval_passed(events.last()) {
            earlier + 1
        } else {
            earlier
        }
    }
}

/// Whether the channel received no message and reported no error.
pub open spec fn quiet<E>(events: Seq<EventModel<E>>) -> bool {
    forall|k: int|
        0 <= k < events.len() ==> message_of(#[trigger] events[k]) is None && events[k].error()
            is None
}

/// How the state of the pings goes back and forth while nothing arrives.
proof fn lemma_quiet_state<E>(builder: crate::wrap::BuilderModel, events: Seq<EventModel<E>>)
    requires
        conversation(builder.built(), events),
        builder.ping_interval is Some,
        quiet(events),
    ensures
        run(builder.built(), events).ping matches Some(pinger) && {
            let n = intervals(events);
            if n == 0 {
                pinger.ping_state == Ping::NotNeeded
            } else if n % 2 == 1 {
                pinger.ping_state == Ping::Needed
            } else if events.len() > 0 && actions(builder.built(), events).last() matches Action::Ping(
                PingerCall::Fresh(_),
            ) {
                pinger.ping_state == Ping::Needed
            } else {
                pinger.ping_state == Ping::Pending
            }
        },
        events.len() > 0 ==> (actions(builder.built(), events).last() matches Action::Ping(
            PingerCall::Fresh(_),
        ) ==> intervals(events) > 0 && intervals(events) % 2 == 0),
    decreases events.len(),
{
    if events.len() > 0 {
        let earlier = events.drop_last();
        assert(quiet(earlier)) by {
            assert forall|k: int| 0 <= k < earlier.len() implies message_of(
                #[trigger] earlier[k],
            ) is None && earlier[k].error() is None by {
                assert(earlier[k] == events[k]);
            }
        }
        assert(message_of(events[events.len() - 1]) is None);
        lemma_quiet_state(builder, earlier);
    }
}

/// While nothing arrives and the channel works, the first interval that
/// passes makes the peer due to be checked, each second one has a ping
/// issued, and the one after that reports the peer. This goes on for as long
/// as the reports are ignored.
pub proof fn law_silent_peer_is_reported<E>(
    builder: crate::wrap::BuilderModel,
    events: Seq<EventModel<E>>,
    event: EventModel<E>,
)
    requires
        builder.ping_interval is Some,
        conversation(builder.built(), events.push(event)),
        quiet(events),
        interval_passed(event),
    ensures
        ({
            let n = intervals(events) + 1;
            let action = run(builder.built(), events).action(event);
            if n == 1 {
                action == ActionModel::<E>::PollNext
            } else if n % 2 == 0 {
                action == ActionModel::<E>::Ping(PingerCall::Fresh(SinkCall::PollReady))
            } else {
                reports_missed_pong(action)
            }
        }),
{
    assert(events.push(event).drop_last() =~= events);
    lemma_quiet_state(builder, events);
}

/// Whatever arrives is a sign of life: when the interval passes next, the
/// peer is neither sent a ping nor reported.
pub proof fn law_activity_spares_the_ping<E>(w: WrapperModel, message: MessageModel)
    ensures
        w.next(Event::<MessageModel, E>::Next(Poll::Ready(Some(Ok(message))))).action(
            EventModel::<E>::Ping(PingerReply::TickReset),
        ) == ActionModel::<E>::PollNext,
{
}

/// An interval that has passed is started over, at once and just once, so
/// that intervals which were missed do not add up.
pub proof fn law_interval_is_started_over<E>(w: WrapperModel, event: EventModel<E>)
    requires
        w.ping is Some,
    ensures
        w.action(event) == ActionModel::<E>::Ping(PingerCall::ResetTick) <==> (event matches Event::Ping(
            PingerReply::Tick(Poll::Ready(_)),
        )),
{
}

} // verus!
