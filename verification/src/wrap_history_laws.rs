//! What a [`Wrapper`][crate::wrap::Wrapper] does in answer to everything that
//! has happened to it so far: what holds here is stated over the events alone,
//! without looking into the wrapper.

#[allow(unused_imports)]
use crate::channel::{ErrorKind, ErrorModel, SinkCall, SinkReply};
#[allow(unused_imports)]
use crate::message::{MessageModel, UserModel};
#[allow(unused_imports)]
use crate::poll::Poll;
#[allow(unused_imports)]
use crate::send::{Overrun, SendMessageState};
#[allow(unused_imports)]
use crate::wrap::{
    Action, ActionModel, BuilderModel, Event, EventModel, Ping, PingerCall, PingerReply,
    WrapperModel,
};
use vstd::prelude::*;

verus! {

/// The error that the sink answered with, if any.
pub open spec fn sink_error<E>(reply: SinkReply<E>) -> Option<E> {
    match reply {
        SinkReply::Ready(Poll::Ready(Err(err))) => Some(err),
        SinkReply::Sent(Err(err)) => Some(err),
        SinkReply::Flushed(Poll::Ready(Err(err))) => Some(err),
        _ => None,
    }
}

/// The error of the channel that an event tells of, if any.
pub open spec fn channel_error<E>(event: EventModel<E>) -> Option<E> {
    match event {
        Event::Pong(reply) => sink_error(reply),
        Event::Reply(reply) => sink_error(reply),
        Event::Ping(PingerReply::Queued(reply)) => sink_error(reply),
        Event::Ping(PingerReply::Fresh(reply)) => sink_error(reply),
        Event::Next(Poll::Ready(Some(Err(err)))) => Some(err),
        _ => None,
    }
}

/// The sink's answer on behalf of a pong, if the event is one.
pub open spec fn pong_reply<E>(event: EventModel<E>) -> Option<SinkReply<E>> {
    match event {
        Event::Pong(reply) => Some(reply),
        Event::Reply(reply) => Some(reply),
        _ => None,
    }
}

/// The sink's answer on behalf of a ping, if the event is one.
pub open spec fn ping_reply<E>(event: EventModel<E>) -> Option<SinkReply<E>> {
    match event {
        Event::Ping(PingerReply::Queued(reply)) => Some(reply),
        Event::Ping(PingerReply::Fresh(reply)) => Some(reply),
        _ => None,
    }
}

/// Whether the sink has made up its mind about taking a message.
pub open spec fn decided<E>(reply: Option<SinkReply<E>>) -> bool {
    reply matches Some(SinkReply::Ready(Poll::Ready(_)))
}

/// Whether the sink has accepted a message.
pub open spec fn accepted<E>(reply: Option<SinkReply<E>>) -> bool {
    reply matches Some(SinkReply::Sent(Ok(_)))
}

/// The payload of the ping that the channel received, if the event is about
/// one.
pub open spec fn received_ping<E>(event: EventModel<E>) -> Option<Seq<u8>> {
    match event {
        Event::Next(Poll::Ready(Some(Ok(MessageModel::Ping(data))))) => Some(data),
        _ => None,
    }
}

/// The payload of the pong that is still to be sent: that of the ping that
/// arrived last, unless the sink has made up its mind about a pong since.
pub open spec fn pong_to_send<E>(events: Seq<EventModel<E>>) -> Option<Seq<u8>>
    decreases events.len(),
{
    if events.len() == 0 {
        None
    } else if received_ping(events.last()) is Some {
        received_ping(events.last())
    } else if decided(pong_reply(events.last())) {
        None
    } else {
        pong_to_send(events.drop_last())
    }
}

/// Whether a pong is still to be flushed: the sink has accepted one, and
/// neither has a poll begun nor a ping arrived since.
pub open spec fn pong_to_flush<E>(events: Seq<EventModel<E>>) -> bool
    decreases events.len(),
{
    if events.len() == 0 {
        false
    } else if accepted(pong_reply(events.last())) {
        true
    } else if events.last() is Poll || received_ping(events.last()) is Some {
        false
    } else {
        pong_to_flush(events.drop_last())
    }
}

/// Whether an interval has passed since the last message arrived.
pub open spec fn check_due<E>(events: Seq<EventModel<E>>) -> bool
    decreases events.len(),
{
    if events.len() == 0 {
        false
    } else if crate::wrap_laws::message_of(events.last()) is Some {
        false
    } else if crate::wrap_laws::interval_passed(events.last()) {
        true
    } else {
        check_due(events.drop_last())
    }
}

/// Whether a ping is out: the sink was not ready for it or has accepted it,
/// and since then no message has arrived and no interval has passed.
pub open spec fn ping_out<E>(events: Seq<EventModel<E>>) -> bool
    decreases events.len(),
{
    if events.len() == 0 {
        false
    } else {
        match events.last() {
            Event::Ping(PingerReply::Fresh(SinkReply::Ready(Poll::Pending))) => true,
            Event::Ping(PingerReply::Fresh(SinkReply::Sent(Ok(_)))) => true,
            event => if crate::wrap_laws::message_of(event) is Some
                || crate::wrap_laws::interval_passed(event) {
                false
            } else {
                ping_out(events.drop_last())
            },
        }
    }
}

/// Whether an event makes a ping necessary: an interval passes for the second
/// time without a message, and no ping is out.
pub open spec fn calls_for_ping<E>(events: Seq<EventModel<E>>, event: EventModel<E>) -> bool {
    crate::wrap_laws::interval_passed(event) && check_due(events) && !ping_out(events)
}

/// Whether an event shows that a ping was left without an answer.
pub open spec fn calls_for_report<E>(events: Seq<EventModel<E>>, event: EventModel<E>) -> bool {
    crate::wrap_laws::interval_passed(event) && check_due(events) && ping_out(events)
}

/// Whether a ping is still to be sent: one became necessary, and the sink has
/// not made up its mind about a ping since.
pub open spec fn ping_to_send<E>(events: Seq<EventModel<E>>) -> bool
    decreases events.len(),
{
    if events.len() == 0 {
        false
    } else if calls_for_ping(events.drop_last(), events.last()) {
        true
    } else if decided(ping_reply(events.last())) {
        false
    } else {
        ping_to_send(events.drop_last())
    }
}

/// Whether a ping is still to be flushed: the sink has accepted one, and
/// neither has it been flushed nor has another one become necessary since.
pub open spec fn ping_to_flush<E>(events: Seq<EventModel<E>>) -> bool
    decreases events.len(),
{
    if events.len() == 0 {
        false
    } else if accepted(ping_reply(events.last())) {
        true
    } else if ping_reply(events.last()) matches Some(SinkReply::Flushed(_)) {
        false
    } else if calls_for_ping(events.drop_last(), events.last()) {
        false
    } else {
        ping_to_flush(events.drop_last())
    }
}

/// The end of a poll that reports a peer which left a ping without an answer.
pub open spec fn report<E>(kind: ErrorKind) -> ActionModel<E> {
    Action::Return(
        Poll::Ready(Some(Err(ErrorModel::Io(kind, "server failed to respond to pings"@)))),
    )
}

/// The result of a poll that the channel's stream brings about, if it does so:
/// there is nothing, or nothing any more, or a message for the user.
pub open spec fn stream_result<E>(event: EventModel<E>) -> Option<
    Poll<Option<Result<UserModel, ErrorModel<E>>>>,
> {
    match event {
        Event::Next(Poll::Pending) => Some(Poll::Pending),
        Event::Next(Poll::Ready(None)) => Some(Poll::Ready(None)),
        Event::Next(Poll::Ready(Some(Ok(MessageModel::Text(data))))) => Some(
            Poll::Ready(Some(Ok(UserModel::Text(data)))),
        ),
        Event::Next(Poll::Ready(Some(Ok(MessageModel::Binary(data))))) => Some(
            Poll::Ready(Some(Ok(UserModel::Binary(data)))),
        ),
        _ => None,
    }
}

/// What there is to do for a pong that an earlier poll has left behind, if
/// anything.
pub open spec fn pong_leftover<E>(
    settings: BuilderModel,
    events: Seq<EventModel<E>>,
) -> Option<SinkCall<MessageModel>> {
    if !settings.send_pongs {
        None
    } else if pong_to_flush(events) {
        Some(SinkCall::PollFlush)
    } else if pong_to_send(events) is Some {
        Some(SinkCall::PollReady)
    } else {
        None
    }
}

/// What there is to do when the turn has come to the pings: with pings
/// disabled the channel is polled at once, else a ping that has been left
/// behind is seen to, and if there is none the timer is looked at.
pub open spec fn turn_of_pings<E>(
    settings: BuilderModel,
    events: Seq<EventModel<E>>,
) -> ActionModel<E> {
    if settings.ping_interval is None {
        Action::PollNext
    } else if ping_to_flush(events) {
        Action::Ping(PingerCall::Queued(SinkCall::PollFlush))
    } else if ping_to_send(events) {
        Action::Ping(PingerCall::Queued(SinkCall::PollReady))
    } else {
        Action::Ping(PingerCall::PollTick)
    }
}

/// What an event calls for, given the events before it. A missed pong is
/// reported with an error of the class `kind`.
pub open spec fn called_for<E>(
    settings: BuilderModel,
    kind: ErrorKind,
    events: Seq<EventModel<E>>,
    event: EventModel<E>,
) -> ActionModel<E> {
    let ping = MessageModel::Ping(Seq::empty());
    if let Some(err) = channel_error(event) {
        Action::Return(Poll::Ready(Some(Err(ErrorModel::Channel(err)))))
    } else if let Some(result) = stream_result(event) {
        Action::Return(result)
    } else if calls_for_report(events, event) {
        report(kind)
    } else {
        match event {
            Event::Poll => match pong_leftover(settings, events) {
                Some(call) => Action::Pong(call),
                None => turn_of_pings(settings, events),
            },
            Event::Pong(reply) => if decided(Some(reply)) {
                Action::Pong(SinkCall::StartSend(MessageModel::Pong(pong_to_send(events)->0)))
            } else {
                turn_of_pings(settings, events)
            },
            Event::Ping(PingerReply::Queued(reply)) => if decided(Some(reply)) {
                Action::Ping(PingerCall::Queued(SinkCall::StartSend(ping)))
            } else {
                Action::Ping(PingerCall::PollTick)
            },
            Event::Ping(PingerReply::Tick(Poll::Ready(_))) => Action::Ping(PingerCall::ResetTick),
            Event::Ping(PingerReply::Tick(Poll::Pending)) => Action::PollNext,
            Event::Ping(PingerReply::TickReset) => if calls_for_ping(events, event) {
                Action::Ping(PingerCall::Fresh(SinkCall::PollReady))
            } else {
                Action::PollNext
            },
            Event::Ping(PingerReply::Fresh(reply)) => if decided(Some(reply)) {
                Action::Ping(PingerCall::Fresh(SinkCall::StartSend(ping)))
            } else {
                Action::PollNext
            },
            Event::Next(_) => if settings.send_pongs && received_ping(event) is Some {
                Action::Reply(SinkCall::PollReady)
            } else {
                Action::PollNext
            },
            Event::Reply(reply) => if decided(Some(reply)) {
                Action::Reply(SinkCall::StartSend(MessageModel::Pong(pong_to_send(events)->0)))
            } else {
                Action::PollNext
            },
        }
    }
}

/// The message that an event makes get lost, or leaves unflushed, given the
/// events before it: a ping or pong that became necessary takes the place of
/// one that is not on its way yet.
pub open spec fn replaced<E>(
    settings: BuilderModel,
    events: Seq<EventModel<E>>,
    event: EventModel<E>,
) -> Option<Overrun<MessageModel>> {
    if settings.send_pongs && received_ping(event) is Some {
        if pong_to_flush(events) {
            Some(Overrun::Unflushed)
        } else {
            match pong_to_send(events) {
                Some(data) => Some(Overrun::Unsent(MessageModel::Pong(data))),
                None => None,
            }
        }
    } else if calls_for_ping(events, event) && ping_to_flush(events) {
        Some(Overrun::Unflushed)
    } else if calls_for_ping(events, event) && ping_to_send(events) {
        Some(Overrun::Unsent(MessageModel::Ping(Seq::empty())))
    } else {
        None
    }
}

/// What was asked for last; a wrapper that has not been polled yet is one
/// whose poll is over.
pub open spec fn last_action<E>(w: WrapperModel, events: Seq<EventModel<E>>) -> ActionModel<E> {
    if events.len() == 0 {
        Action::Return(Poll::Pending)
    } else {
        crate::wrap_laws::run(w, events.drop_last()).action(events.last())
    }
}

/// Whether each event answers the action before it, starting with a poll. An
/// interval may also have been started over by the time that it is found to
/// have passed.
pub open spec fn dialogue<E>(w: WrapperModel, events: Seq<EventModel<E>>) -> bool
    decreases events.len(),
{
    events.len() == 0 || {
        let action = last_action(w, events.drop_last());
        &&& dialogue(w, events.drop_last())
        &&& crate::wrap_laws::answers(action, events.last()) || (action == ActionModel::<E>::Ping(
            PingerCall::PollTick,
        ) && crate::wrap_laws::interval_passed(events.last()))
    }
}

/// A conversation is a dialogue.
proof fn lemma_dialogue<E>(w: WrapperModel, events: Seq<EventModel<E>>)
    requires
        crate::wrap_laws::conversation(w, events),
    ensures
        dialogue(w, events),
    decreases events.len(),
{
    if events.len() > 0 {
        let earlier = events.drop_last();
        lemma_dialogue(w, earlier);
        if events.len() == 1 {
            assert(events.last() == events[0]);
        }
    }
}

/// What the slot for pongs holds, as the events tell.
spec fn pong_slot<E>(events: Seq<EventModel<E>>) -> SendMessageState<MessageModel> {
    if pong_to_flush(events) {
        SendMessageState::Flush
    } else {
        match pong_to_send(events) {
            Some(data) => SendMessageState::Pending(MessageModel::Pong(data)),
            None => SendMessageState::Unused,
        }
    }
}

/// What the slot for pings holds, as the events tell, unless it is being
/// flushed.
spec fn ping_slot<E>(events: Seq<EventModel<E>>) -> SendMessageState<MessageModel> {
    if ping_to_flush(events) {
        SendMessageState::Flush
    } else if ping_to_send(events) {
        SendMessageState::Pending(MessageModel::Ping(Seq::empty()))
    } else {
        SendMessageState::Unused
    }
}

/// Whether the slot for pongs and what was asked for on its behalf are as the
/// events tell.
spec fn tracks_pongs<E>(builder: BuilderModel, events: Seq<EventModel<E>>) -> bool {
    let w = crate::wrap_laws::run(builder.built(), events);
    let action = last_action(builder.built(), events);
    if builder.send_pongs {
        &&& w.pong == Some(pong_slot(events))
        &&& pong_to_flush(events) ==> pong_to_send(events) is None
        &&& (action matches Action::Pong(call) ==> !pong_to_flush(events) && (call is PollReady
            <==> pong_to_send(events) is Some))
        &&& (action matches Action::Reply(call) ==> !pong_to_flush(events) && (call is PollReady
            <==> pong_to_send(events) is Some) && !(call is PollFlush))
    } else {
        w.pong is None && !(action is Pong) && !(action is Reply)
    }
}

/// Whether the state of the pings and what was asked for on their behalf are
/// as the events tell.
spec fn tracks_pings<E>(builder: BuilderModel, events: Seq<EventModel<E>>) -> bool {
    let action = last_action(builder.built(), events);
    match crate::wrap_laws::run(builder.built(), events).ping {
        Some(pinger) => {
            &&& builder.ping_interval is Some
            &&& pinger.ping == (if action matches Action::Ping(
                PingerCall::Queued(SinkCall::PollFlush),
            ) {
                SendMessageState::Unused
            } else {
                ping_slot(events)
            })
            &&& pinger.ping_state == (if !check_due(events) {
                Ping::NotNeeded
            } else if ping_out(events) {
                Ping::Pending
            } else {
                Ping::Needed
            })
            &&& ping_out(events) ==> check_due(events)
            &&& ping_to_flush(events) ==> !ping_to_send(events)
            &&& (action matches Action::Ping(PingerCall::Queued(call)) ==> {
                &&& call is PollReady <==> ping_to_send(events)
                &&& call is PollFlush <==> ping_to_flush(events)
            })
            &&& (action matches Action::Ping(PingerCall::Fresh(call)) ==> {
                &&& call is PollReady <==> ping_to_send(events)
                &&& !(call is PollFlush) && !ping_to_flush(events)
                &&& check_due(events) && !ping_out(events)
            })
        },
        None => builder.ping_interval is None && !(action is Ping),
    }
}

/// The events tell what a wrapper holds.
proof fn lemma_tracks<E>(builder: BuilderModel, events: Seq<EventModel<E>>)
    requires
        dialogue(builder.built(), events),
    ensures
        tracks_pongs(builder, events),
        tracks_pings(builder, events),
    decreases events.len(),
{
    if events.len() > 0 {
        lemma_tracks(builder, events.drop_last());
    }
}

/// What a wrapper asks for follows from what has happened to it.
proof fn lemma_called_for<E>(
    builder: BuilderModel,
    events: Seq<EventModel<E>>,
    event: EventModel<E>,
)
    requires
        dialogue(builder.built(), events.push(event)),
    ensures
        ({
            let w = crate::wrap_laws::run(builder.built(), events);
            &&& w.action(event) == called_for(builder, ErrorKind::TimedOut, events, event)
            &&& w.overrun(event) == replaced(builder, events, event)
        }),
{
    assert(events.push(event).drop_last() =~= events);
    lemma_tracks(builder, events);
}

/// A poll ends for one of three reasons, and with the result that goes with
/// it: the channel's stream had nothing, or nothing any more, or a message for
/// the user; the channel reported an error; or an interval passed while a ping
/// was out. As long as none of these is the case the poll goes on, whatever
/// the wrapper was built to do.
pub proof fn law_poll_ends_only_for_a_reason<E>(
    builder: BuilderModel,
    events: Seq<EventModel<E>>,
    event: EventModel<E>,
)
    requires
        crate::wrap_laws::conversation(builder.built(), events.push(event)),
    ensures
        ({
            let action = crate::wrap_laws::run(builder.built(), events).action(event);
            &&& action is Return <==> stream_result(event) is Some || channel_error(event) is Some
                || (crate::wrap_laws::interval_passed(event) && ping_out(events))
            &&& stream_result(event) matches Some(result) ==> action == ActionModel::<E>::Return(
                result,
            )
            &&& channel_error(event) matches Some(err) ==> action == ActionModel::<E>::Return(
                Poll::Ready(Some(Err(ErrorModel::Channel(err)))),
            )
            &&& crate::wrap_laws::interval_passed(event) && ping_out(events) ==> action
                == ActionModel::<E>::Return(
                Poll::Ready(
                    Some(
                        Err(
                            ErrorModel::Io(
                                ErrorKind::TimedOut,
                                "server failed to respond to pings"@,
                            ),
                        ),
                    ),
                ),
            )
        }),
{
    lemma_dialogue(builder.built(), events.push(event));
    lemma_called_for(builder, events, event);
    assert(events.push(event).drop_last() =~= events);
    lemma_tracks(builder, events);
}

/// How many more actions there may be at most until the channel is polled or
/// the poll is over.
pub open spec fn distance<E>(action: ActionModel<E>) -> nat {
    match action {
        Action::Pong(SinkCall::PollReady) => 9,
        Action::Pong(_) => 8,
        Action::Ping(PingerCall::Queued(SinkCall::PollReady)) => 7,
        Action::Ping(PingerCall::Queued(_)) => 6,
        Action::Ping(PingerCall::PollTick) => 5,
        Action::Ping(PingerCall::ResetTick) => 4,
        Action::Ping(PingerCall::Fresh(SinkCall::PollReady)) => 3,
        Action::Reply(SinkCall::PollReady) => 2,
        Action::Ping(PingerCall::Fresh(_)) | Action::Reply(_) => 1,
        Action::PollNext | Action::Return(_) => 0,
    }
}

/// A poll gets to the channel: every answer brings it closer, and unless the
/// poll is over it does not stop before.
pub proof fn law_poll_gets_to_the_channel<E>(
    w: WrapperModel,
    action: ActionModel<E>,
    event: EventModel<E>,
)
    requires
        crate::wrap_laws::answers(action, event),
        distance(action) > 0,
    ensures
        distance(w.action(event)) < distance(action),
{
}

/// A pong that the sink accepted is flushed first thing in the next poll, so
/// that it gets to the peer, unless another ping has arrived before that. It
/// does not matter whether the wrapper sends pings itself.
pub proof fn law_accepted_pong_is_flushed<E>(
    builder: BuilderModel,
    events: Seq<EventModel<E>>,
    k: int,
)
    requires
        crate::wrap_laws::conversation(builder.built(), events.push(Event::Poll)),
        0 <= k < events.len(),
        accepted(pong_reply(events[k])),
        forall|j: int|
            k < j < events.len() ==> !(#[trigger] events[j] is Poll) && received_ping(events[j])
                is None,
    ensures
        crate::wrap_laws::run(builder.built(), events).action(EventModel::<E>::Poll)
            == ActionModel::<E>::Pong(SinkCall::PollFlush),
{
    let w = builder.built();
    lemma_dialogue(w, events.push(Event::Poll));
    lemma_called_for(builder, events, Event::Poll);
    assert(events.push(Event::Poll).drop_last() =~= events);
    lemma_pong_to_flush(events, k);
    lemma_tracks(builder, events);
    if !builder.send_pongs {
        lemma_dialogue_prefix(w, events, k);
        lemma_tracks(builder, events.take(k));
    }
}

/// A pong that the sink accepted is to be flushed until a poll begins or a
/// ping arrives.
proof fn lemma_pong_to_flush<E>(events: Seq<EventModel<E>>, k: int)
    requires
        0 <= k < events.len(),
        accepted(pong_reply(events[k])),
        forall|j: int|
            k < j < events.len() ==> !(#[trigger] events[j] is Poll) && received_ping(events[j])
                is None,
    ensures
        pong_to_flush(events),
    decreases events.len(),
{
    let earlier = events.drop_last();
    if k < earlier.len() {
        assert forall|j: int| k < j < earlier.len() implies !(#[trigger] earlier[j] is Poll)
            && received_ping(earlier[j]) is None by {
            assert(earlier[j] == events[j]);
        }
        assert(!(events[events.len() - 1] is Poll));
        lemma_pong_to_flush(earlier, k);
    }
}

/// An event of a dialogue answers what was asked for before it.
proof fn lemma_dialogue_prefix<E>(w: WrapperModel, events: Seq<EventModel<E>>, k: int)
    requires
        dialogue(w, events),
        0 <= k < events.len(),
    ensures
        dialogue(w, events.take(k)),
        crate::wrap_laws::answers(last_action(w, events.take(k)), events[k])
            || crate::wrap_laws::interval_passed(events[k]),
    decreases events.len(),
{
    if k < events.len() - 1 {
        lemma_dialogue_prefix(w, events.drop_last(), k);
        assert(events.drop_last().take(k) =~= events.take(k));
    } else {
        assert(events.take(k) =~= events.drop_last());
    }
}

/// A ping that the sink accepted is flushed as soon as a later poll gets to
/// the pings, so that it gets to the peer, unless an interval has passed
/// before that. A poll gets to the pings when it begins or when the sink
/// answers for a pong, if there is nothing more to do about pongs. It does not
/// matter whether the wrapper sends pongs.
pub proof fn law_accepted_ping_is_flushed<E>(
    builder: BuilderModel,
    events: Seq<EventModel<E>>,
    event: EventModel<E>,
    k: int,
)
    requires
        crate::wrap_laws::conversation(builder.built(), events.push(event)),
        0 <= k < events.len(),
        accepted(ping_reply(events[k])),
        forall|j: int|
            k < j < events.len() ==> !(ping_reply(#[trigger] events[j]) matches Some(
                SinkReply::Flushed(_),
            )) && !crate::wrap_laws::interval_passed(events[j]),
        (event is Poll && pong_leftover(builder, events) is None) || (event matches Event::Pong(
            reply,
        ) && sink_error(reply) is None && !(reply is Ready && reply->Ready_0 is Ready)),
    ensures
        crate::wrap_laws::run(builder.built(), events).action(event) == ActionModel::<E>::Ping(
            PingerCall::Queued(SinkCall::PollFlush),
        ),
{
    let w = builder.built();
    lemma_dialogue(w, events.push(event));
    lemma_called_for(builder, events, event);
    assert(events.push(event).drop_last() =~= events);
    lemma_ping_to_flush(events, k);
    lemma_tracks(builder, events);
    if builder.ping_interval is None {
        lemma_dialogue_prefix(w, events, k);
        lemma_tracks(builder, events.take(k));
    }
}

/// A ping that the sink accepted is to be flushed until that happens or an
/// interval passes.
proof fn lemma_ping_to_flush<E>(events: Seq<EventModel<E>>, k: int)
    requires
        0 <= k < events.len(),
        accepted(ping_reply(events[k])),
        forall|j: int|
            k < j < events.len() ==> !(ping_reply(#[trigger] events[j]) matches Some(
                SinkReply::Flushed(_),
            )) && !crate::wrap_laws::interval_passed(events[j]),
    ensures
        ping_to_flush(events),
    decreases events.len(),
{
    let earlier = events.drop_last();
    if k < earlier.len() {
        assert forall|j: int| k < j < earlier.len() implies !(ping_reply(
            #[trigger] earlier[j],
        ) matches Some(SinkReply::Flushed(_))) && !crate::wrap_laws::interval_passed(
            earlier[j],
        ) by {
            assert(earlier[j] == events[j]);
        }
        assert(!crate::wrap_laws::interval_passed(events[events.len() - 1]));
        lemma_ping_to_flush(earlier, k);
    }
}

/// Whatever else a wrapper does, one that holds an accepted ping or pong asks
/// for it to be flushed when its turn comes, and one that holds a message to
/// be sent asks whether the sink is ready.
pub proof fn law_slots_are_seen_to<E>(w: WrapperModel, event: EventModel<E>)
    ensures
        event is Poll ==> {
            &&& w.pong_slot() is Flush ==> w.action(event) == ActionModel::<E>::Pong(
                SinkCall::PollFlush,
            )
            &&& w.pong_slot() is Pending ==> w.action(event) == ActionModel::<E>::Pong(
                SinkCall::PollReady,
            )
        },
        (event is Poll && w.pong_slot() is Unused) || (event matches Event::Pong(reply)
            && sink_error(reply) is None && !(w.pong_slot() is Pending && reply is Ready
            && reply->Ready_0 is Ready)) ==> {
            let slot = crate::wrap_laws::ping_slot(w);
            &&& slot is Flush ==> w.action(event) == ActionModel::<E>::Ping(
                PingerCall::Queued(SinkCall::PollFlush),
            )
            &&& slot is Pending ==> w.action(event) == ActionModel::<E>::Ping(
                PingerCall::Queued(SinkCall::PollReady),
            )
            &&& slot is Unused && w.ping is Some ==> w.action(event) == ActionModel::<E>::Ping(
                PingerCall::PollTick,
            )
            &&& w.ping is None ==> w.action(event) == ActionModel::<E>::PollNext
        },
{
}

/// A control message never gets through to the user, not even as an error:
/// receiving goes on, at once unless the message is a ping that is to be
/// answered.
pub proof fn law_control_messages_stay_inside<E>(w: WrapperModel, message: MessageModel)
    requires
        !(message is Text),
        !(message is Binary),
    ensures
        w.action(EventModel::<E>::Next(Poll::Ready(Some(Ok(message))))) == (if message is Ping
            && w.pong is Some {
            ActionModel::<E>::Reply(SinkCall::PollReady)
        } else {
            Action::PollNext
        }),
{
}

/// A ping is answered, however many polls it takes: the first poll in which
/// the sink is ready hands it a pong with the payload of the ping that arrived
/// last, and every poll before that asks the sink.
pub proof fn law_pong_is_not_forgotten<E>(
    builder: BuilderModel,
    events: Seq<EventModel<E>>,
    event: EventModel<E>,
    k: int,
)
    requires
        builder.send_pongs,
        crate::wrap_laws::conversation(builder.built(), events.push(event)),
        0 <= k < events.len(),
        received_ping(events[k]) is Some,
        forall|j: int|
            k < j < events.len() ==> !decided(pong_reply(#[trigger] events[j])) && received_ping(
                events[j],
            ) is None,
    ensures
        ({
            let action = crate::wrap_laws::run(builder.built(), events).action(event);
            let ready: SinkReply<E> = SinkReply::Ready(Poll::Ready(Ok(())));
            let pong = MessageModel::Pong(received_ping(events[k])->0);
            &&& event is Poll ==> action == ActionModel::<E>::Pong(SinkCall::PollReady)
            &&& event == EventModel::<E>::Pong(ready) ==> action == ActionModel::<E>::Pong(
                SinkCall::StartSend(pong),
            )
            &&& event == EventModel::<E>::Reply(ready) ==> action == ActionModel::<E>::Reply(
                SinkCall::StartSend(pong),
            )
        }),
{
    lemma_dialogue(builder.built(), events.push(event));
    lemma_called_for(builder, events, event);
    assert(events.push(event).drop_last() =~= events);
    lemma_pong_to_send(events, k);
    lemma_tracks(builder, events);
}

/// A pong is to be sent until the sink makes up its mind or another ping
/// arrives.
proof fn lemma_pong_to_send<E>(events: Seq<EventModel<E>>, k: int)
    requires
        0 <= k < events.len(),
        received_ping(events[k]) is Some,
        forall|j: int|
            k < j < events.len() ==> !decided(pong_reply(#[trigger] events[j])) && received_ping(
                events[j],
            ) is None,
    ensures
        pong_to_send(events) == received_ping(events[k]),
    decreases events.len(),
{
    let earlier = events.drop_last();
    if k < earlier.len() {
        assert forall|j: int| k < j < earlier.len() implies !decided(
            pong_reply(#[trigger] earlier[j]),
        ) && received_ping(earlier[j]) is None by {
            assert(earlier[j] == events[j]);
        }
        assert(received_ping(events[events.len() - 1]) is None);
        lemma_pong_to_send(earlier, k);
    }
}

/// When an interval passes, a wrapper spares a peer from which a message has
/// arrived since the interval passed before, reports one to which a ping is
/// out, and sends a ping to every other one.
pub proof fn law_passed_interval_is_acted_upon<E>(
    builder: BuilderModel,
    events: Seq<EventModel<E>>,
    event: EventModel<E>,
)
    requires
        crate::wrap_laws::conversation(builder.built(), events.push(event)),
        crate::wrap_laws::interval_passed(event),
    ensures
        crate::wrap_laws::run(builder.built(), events).action(event) == (if !check_due(events) {
            ActionModel::<E>::PollNext
        } else if ping_out(events) {
            report(ErrorKind::TimedOut)
        } else {
            Action::Ping(PingerCall::Fresh(SinkCall::PollReady))
        }),
{
    lemma_dialogue(builder.built(), events.push(event));
    lemma_called_for(builder, events, event);
}

/// What a wrapper asks for at any time, whatever it was built to do, is what
/// the events so far call for, and it tells of exactly the messages that were
/// replaced before they were on their way.
pub proof fn law_wrapper_does_what_is_called_for<E>(
    builder: BuilderModel,
    events: Seq<EventModel<E>>,
    event: EventModel<E>,
)
    requires
        crate::wrap_laws::conversation(builder.built(), events.push(event)),
    ensures
        ({
            let w = crate::wrap_laws::run(builder.built(), events);
            &&& w.action(event) == called_for(builder, ErrorKind::TimedOut, events, event)
            &&& w.overrun(event) == replaced(builder, events, event)
        }),
{
    lemma_dialogue(builder.built(), events.push(event));
    lemma_called_for(builder, events, event);
}

/// A dialogue, too, has a wrapper do what the events so far call for. This is
/// for wrappers whose interval is started over by itself.
pub proof fn law_dialogue_has_done_what_is_called_for<E>(
    builder: BuilderModel,
    events: Seq<EventModel<E>>,
    event: EventModel<E>,
)
    requires
        dialogue(builder.built(), events.push(event)),
    ensures
        crate::wrap_laws::run(builder.built(), events).action(event) == called_for(
            builder,
            ErrorKind::TimedOut,
            events,
            event,
        ),
{
    lemma_called_for(builder, events, event);
}

/// A wrapper sends pongs and pings if and only if it was built to do so, and
/// checks the connection at the interval that it was built with.
pub proof fn law_settings_are_those_of_the_builder<E>(
    builder: BuilderModel,
    events: Seq<EventModel<E>>,
)
    ensures
        ({
            let w = crate::wrap_laws::run(builder.built(), events);
            &&& w.pong is Some <==> builder.send_pongs
            &&& match (w.ping, builder.ping_interval) {
                (Some(pinger), Some(interval)) => pinger.next_ping == interval,
                (None, None) => true,
                _ => false,
            }
        }),
{
    crate::wrap_laws::law_settings_are_kept(builder.built(), events);
}

/// Unless told otherwise, a wrapper sends a ping every 30 seconds, and no
/// pongs.
pub proof fn law_default_settings()
    ensures
        BuilderModel::initial().ping_interval == Some(crate::time::seconds(30)),
        !BuilderModel::initial().send_pongs,
{
}

} // verus!
