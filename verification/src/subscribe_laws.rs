//! What holds of a message stream and its subscription over any sequence of
//! arrivals.

#[allow(unused_imports)]
use crate::poll::Poll;
#[allow(unused_imports)]
use crate::subscribe::{
    Arrival, Classification, Delivery, DriveEvent, Message, Next, Notification,
};
#[allow(unused_imports)]
use futures::channel::oneshot::{Receiver, Sender};
use vstd::prelude::*;

verus! {

/// The user messages among the arrivals, in order.
pub open spec fn user_messages<U, C>(arrivals: Seq<Arrival<U, C>>) -> Seq<U>
    decreases arrivals.len(),
{
    if arrivals.len() == 0 {
        Seq::empty()
    } else {
        let earlier = user_messages(arrivals.drop_last());
        match arrivals.last() {
            Arrival::User(message, _) => earlier.push(message),
            _ => earlier,
        }
    }
}

/// The messages that polls returned, in order.
pub open spec fn emitted<U, C>(arrivals: Seq<Arrival<U, C>>) -> Seq<U>
    decreases arrivals.len(),
{
    if arrivals.len() == 0 {
        Seq::empty()
    } else {
        let earlier = emitted(arrivals.drop_last());
        match arrivals.last().next() {
            Next::Return(Poll::Ready(Some(message))) => earlier.push(message),
            _ => earlier,
        }
    }
}

/// A message stream emits exactly the user messages, erroneous ones among
/// them, in order. Control messages are never emitted.
pub proof fn law_user_messages_are_emitted<U, C>(arrivals: Seq<Arrival<U, C>>)
    ensures
        emitted(arrivals) == user_messages(arrivals),
    decreases arrivals.len(),
{
    if arrivals.len() > 0 {
        law_user_messages_are_emitted(arrivals.drop_last());
    }
}

/// The channel through which the subscription still expects to be notified
/// after all of the arrivals.
pub open spec fn still_registered<U, C>(
    registered: Option<Sender<Notification<C>>>,
    arrivals: Seq<Arrival<U, C>>,
) -> Option<Sender<Notification<C>>>
    decreases arrivals.len(),
{
    if arrivals.len() == 0 {
        registered
    } else {
        match arrivals.last().notification() {
            Some(_) => None,
            None => still_registered(registered, arrivals.drop_last()),
        }
    }
}

/// What is delivered to the subscription, in order.
pub open spec fn deliveries<U, C>(
    registered: Option<Sender<Notification<C>>>,
    arrivals: Seq<Arrival<U, C>>,
) -> Seq<Delivery<C>>
    decreases arrivals.len(),
{
    if arrivals.len() == 0 {
        Seq::empty()
    } else {
        let earlier = deliveries(registered, arrivals.drop_last());
        let expecting = still_registered(registered, arrivals.drop_last());
        match arrivals.last().notification() {
            Some(message) => match crate::subscribe::delivery_to(expecting, message) {
                Some(delivery) => earlier.push(delivery),
                None => earlier,
            },
            None => earlier,
        }
    }
}

/// The first thing among the arrivals of which a subscription is told.
pub open spec fn first_notification<U, C>(arrivals: Seq<Arrival<U, C>>) -> Option<Notification<C>>
    decreases arrivals.len(),
{
    if arrivals.len() == 0 {
        None
    } else {
        match first_notification(arrivals.drop_last()) {
            Some(message) => Some(message),
            None => arrivals.last().notification(),
        }
    }
}

/// A request is answered with the first control message, error or end of the
/// stream that arrives after it was registered, whichever comes first, and
/// with nothing else. From then on nothing is expected any more.
pub proof fn law_request_is_answered_once<U, C>(
    sender: Sender<Notification<C>>,
    arrivals: Seq<Arrival<U, C>>,
)
    ensures
        deliveries(Some(sender), arrivals) == (match first_notification(arrivals) {
            Some(message) => seq![Delivery { sender, message }],
            None => Seq::empty(),
        }),
        still_registered(Some(sender), arrivals) == (match first_notification(arrivals) {
            Some(_) => None,
            None => Some(sender),
        }),
    decreases arrivals.len(),
{
    if arrivals.len() > 0 {
        law_request_is_answered_once(sender, arrivals.drop_last());
    }
}

/// A request that is over, be it because its message could not be sent or
/// because it has been answered, leaves nothing registered, and so the next
/// one finds things the way that the first one did. `early` is what arrives
/// while the message is being sent, and `late` what arrives after that.
pub proof fn law_finished_request_leaves_nothing_behind<U, C, E>(
    sender: Sender<Notification<C>>,
    early: Seq<Arrival<U, C>>,
    result: Result<(), E>,
    late: Seq<Arrival<U, C>>,
)
    requires
        result is Err || first_notification(early) is Some || first_notification(late) is Some,
    ensures
        still_registered(
            crate::subscribe::after_sending(still_registered(Some(sender), early), result),
            late,
        ) is None,
{
    law_request_is_answered_once(sender, early);
    law_request_is_answered_once(sender, late);
    law_nothing_is_delivered_unasked(late);
}

/// A subscription that expects nothing is not told anything, whatever
/// arrives.
pub proof fn law_nothing_is_delivered_unasked<U, C>(arrivals: Seq<Arrival<U, C>>)
    ensures
        deliveries(None, arrivals) == Seq::<Delivery<C>>::empty(),
        still_registered(None, arrivals) is None,
    decreases arrivals.len(),
{
    if arrivals.len() > 0 {
        law_nothing_is_delivered_unasked(arrivals.drop_last());
    }
}

/// User messages that are not errors do not answer a request.
pub proof fn law_user_messages_answer_nothing<U, C>(arrivals: Seq<Arrival<U, C>>)
    requires
        forall|i: int|
            0 <= i < arrivals.len() ==> (#[trigger] arrivals[i] matches Arrival::User(_, false))
                || arrivals[i] is Pending,
    ensures
        first_notification(arrivals) is None,
    decreases arrivals.len(),
{
    if arrivals.len() > 0 {
        let earlier = arrivals.drop_last();
        assert forall|i: int| 0 <= i < earlier.len() implies (#[trigger] earlier[i] matches
            Arrival::User(_, false)) || earlier[i] is Pending by {
            assert(earlier[i] == arrivals[i]);
        }
        law_user_messages_answer_nothing(earlier);
        assert(arrivals.last() == arrivals[arrivals.len() - 1]);
    }
}

/// How driving a future ends, if the events bring it to an end; each event
/// goes with whether the message in it is considered an error.
pub open spec fn drive_all<T, U>(events: Seq<(DriveEvent<T, U>, bool)>) -> Option<Result<T, U>>
    decreases events.len(),
{
    if events.len() == 0 {
        None
    } else {
        match drive_all(events.drop_last()) {
            Some(result) => Some(result),
            None => crate::subscribe::driven(events.last().0, events.last().1),
        }
    }
}

/// Whether driving goes on after an event.
pub open spec fn goes_on<T, U>(event: (DriveEvent<T, U>, bool)) -> bool {
    match event.0 {
        DriveEvent::Output(_) => false,
        DriveEvent::Stream(Some(_)) => !event.1,
        DriveEvent::Stream(None) => true,
    }
}

/// Driving a future goes on until there is an output or an erroneous
/// message, and ends with the first of these.
pub proof fn law_drive_ends_with_output_or_error<T, U>(
    events: Seq<(DriveEvent<T, U>, bool)>,
    i: int,
)
    requires
        0 <= i < events.len(),
        forall|j: int| 0 <= j < i ==> goes_on(#[trigger] events[j]),
        !goes_on(events[i]),
    ensures
        drive_all(events) == (match events[i].0 {
            DriveEvent::Output(output) => Some(Ok(output)),
            DriveEvent::Stream(Some(message)) => Some(Err(message)),
            DriveEvent::Stream(None) => None,
        }),
    decreases events.len(),
{
    let earlier = events.drop_last();
    if i < earlier.len() {
        assert(earlier[i] == events[i]);
        law_drive_ends_with_output_or_error(earlier, i);
    } else {
        law_drive_goes_on(earlier);
    }
}

/// Without an output and without an erroneous message, driving a future does
/// not end.
pub proof fn law_drive_goes_on<T, U>(events: Seq<(DriveEvent<T, U>, bool)>)
    requires
        forall|j: int| 0 <= j < events.len() ==> goes_on(#[trigger] events[j]),
    ensures
        drive_all(events) is None,
    decreases events.len(),
{
    if events.len() > 0 {
        let earlier = events.drop_last();
        assert forall|j: int| 0 <= j < earlier.len() implies goes_on(#[trigger] earlier[j]) by {
            assert(earlier[j] == events[j]);
        }
        law_drive_goes_on(earlier);
        assert(goes_on(events[events.len() - 1]));
    }
}

/// A message is a control message exactly if its own classification says so,
/// and a user message else. Whether a user message is an error is up to the
/// message type alone.
pub proof fn law_classification_decides<M: Message>(
    item: Poll<Option<M>>,
    arrival: Arrival<M::UserMessage, M::ControlMessage>,
)
    ensures
        arrival.found(item) <==> match arrival {
            Arrival::Pending => item is Pending,
            Arrival::End => item == Poll::Ready(None::<M>),
            Arrival::User(user, is_error) => (item matches Poll::Ready(Some(message))
                && call_ensures(M::classify, (message,), Classification::UserMessage(user)))
                && call_ensures(M::is_error, (&user,), is_error),
            Arrival::Control(control) => item matches Poll::Ready(Some(message)) && call_ensures(
                M::classify,
                (message,),
                Classification::ControlMessage(control),
            ),
        },
{
}

/// What is found in the stream goes to whom it concerns: the subscription is
/// told of exactly the control messages, the erroneous user messages and the
/// end, and nothing else. A poll returns with exactly the user messages, the
/// end, and that there is nothing, and goes on after a control message.
pub proof fn law_arrival_goes_to_whom_it_concerns<U, C>(arrival: Arrival<U, C>)
    ensures
        match arrival.notification() {
            None => arrival is Pending || (arrival matches Arrival::User(_, false)),
            Some(None) => arrival is End,
            Some(Some(Err(_))) => arrival matches Arrival::User(_, true),
            Some(Some(Ok(message))) => arrival == Arrival::<U, C>::Control(message),
        },
        match arrival.next() {
            Next::PollNext => arrival is Control,
            Next::Return(Poll::Pending) => arrival is Pending,
            Next::Return(Poll::Ready(None)) => arrival is End,
            Next::Return(Poll::Ready(Some(message))) => arrival matches Arrival::User(user, _)
                && user == message,
        },
{
}

/// A notification reaches exactly the subscription that has registered for
/// one, through the channel that it has registered, and unchanged.
pub proof fn law_notification_goes_to_the_registered<C>(
    registered: Option<Sender<Notification<C>>>,
    message: Notification<C>,
)
    ensures
        match crate::subscribe::delivery_to(registered, message) {
            Some(delivery) => registered == Some(delivery.sender) && delivery.message == message,
            None => registered is None,
        },
{
}

/// A request stays registered exactly if its message could be sent.
pub proof fn law_failed_sending_withdraws_the_request<C, E>(
    sender: Sender<Notification<C>>,
    result: Result<(), E>,
)
    ensures
        crate::subscribe::after_sending(Some(sender), result) == (if result is Ok {
            Some(sender)
        } else {
            None
        }),
        crate::subscribe::after_sending(None::<Sender<Notification<C>>>, result) is None,
{
}

/// The answer to a request arrives where the request waits for it: the two
/// halves come from one and the same channel.
pub proof fn law_halves_belong_together<C>(
    sender: Sender<Notification<C>>,
    receiver: Receiver<Notification<C>>,
)
    requires
        crate::subscribe::halves(sender, receiver),
    ensures
        call_ensures(
            futures::channel::oneshot::channel::<Notification<C>>,
            (),
            (sender, receiver),
        ),
{
}

} // verus!
