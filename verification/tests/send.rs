//! The slot that gets a control message on its way.

use websocket_util::channel::{Progress, SinkCall, SinkReply};
use websocket_util::poll::Poll;
use websocket_util::send::{set_message, Overrun, SendMessageState};

/// Nothing is done for a slot that is not in use.
#[test]
fn unused_slot_does_nothing() {
    let mut state = SendMessageState::<u8>::Unused;
    assert_eq!(state.poll::<()>(), Progress::Done(Poll::Ready(Ok(()))));
    assert_eq!(state.advance::<()>(), Progress::Done(Ok(())));
    assert_eq!(state, SendMessageState::Unused);
}

/// A message is sent by one attempt and flushed by the next one.
#[test]
fn message_is_sent_and_flushed() {
    let mut state = SendMessageState::Unused;
    state.set(7u8);
    assert_eq!(state.advance::<()>(), Progress::Call(SinkCall::PollReady));
    assert_eq!(state, SendMessageState::Pending(7));

    let ready: SinkReply<()> = SinkReply::Ready(Poll::Ready(Ok(())));
    assert_eq!(state.advance_reply(ready), Progress::Call(SinkCall::StartSend(7)));
    assert_eq!(state, SendMessageState::Unused);

    let accepted: SinkReply<()> = SinkReply::Sent(Ok(()));
    assert_eq!(state.advance_reply(accepted), Progress::Done(Ok(())));
    assert_eq!(state, SendMessageState::Flush);

    assert_eq!(state.advance::<()>(), Progress::Call(SinkCall::PollFlush));
    assert_eq!(state, SendMessageState::Unused);
    let flushed: SinkReply<()> = SinkReply::Flushed(Poll::Ready(Ok(())));
    assert_eq!(state.advance_reply(flushed), Progress::Done(Ok(())));
    assert_eq!(state, SendMessageState::Unused);
}

/// A busy sink keeps the message waiting; only `poll` tells.
#[test]
fn busy_sink_keeps_the_message() {
    let mut state = SendMessageState::Pending(7u8);
    let busy: SinkReply<()> = SinkReply::Ready(Poll::Pending);
    assert_eq!(state.poll_reply(busy), Progress::Done(Poll::Pending));
    assert_eq!(state, SendMessageState::Pending(7));

    let busy: SinkReply<()> = SinkReply::Ready(Poll::Pending);
    assert_eq!(state.advance_reply(busy), Progress::Done(Ok(())));
    assert_eq!(state, SendMessageState::Pending(7));
}

/// A flush is attempted just once.
#[test]
fn flush_is_attempted_once() {
    let mut state = SendMessageState::<u8>::Flush;
    assert_eq!(state.poll::<()>(), Progress::Call(SinkCall::PollFlush));
    let busy: SinkReply<()> = SinkReply::Flushed(Poll::Pending);
    assert_eq!(state.poll_reply(busy), Progress::Done(Poll::Pending));
    assert_eq!(state, SendMessageState::Unused);

    let mut state = SendMessageState::<u8>::Flush;
    assert_eq!(state.advance::<()>(), Progress::Call(SinkCall::PollFlush));
    let busy: SinkReply<()> = SinkReply::Flushed(Poll::Pending);
    assert_eq!(state.advance_reply(busy), Progress::Done(Ok(())));
    assert_eq!(state, SendMessageState::Unused);
}

/// An error at any point frees the slot and is passed on.
#[test]
fn errors_free_the_slot() {
    let mut state = SendMessageState::Pending(7u8);
    let failed = SinkReply::Ready(Poll::Ready(Err("ready")));
    assert_eq!(state.poll_reply(failed), Progress::Done(Poll::Ready(Err("ready"))));
    assert_eq!(state, SendMessageState::Unused);

    let mut state = SendMessageState::Pending(7u8);
    let ready = SinkReply::<&str>::Ready(Poll::Ready(Ok(())));
    assert_eq!(state.advance_reply(ready), Progress::Call(SinkCall::StartSend(7)));
    assert_eq!(state.advance_reply(SinkReply::Sent(Err("send"))), Progress::Done(Err("send")));
    assert_eq!(state, SendMessageState::Unused);

    let mut state = SendMessageState::<u8>::Flush;
    assert_eq!(state.advance::<&str>(), Progress::Call(SinkCall::PollFlush));
    let failed = SinkReply::Flushed(Poll::Ready(Err("flush")));
    assert_eq!(state.advance_reply(failed), Progress::Done(Err("flush")));
    assert_eq!(state, SendMessageState::Unused);
}

/// Setting a message tells what became of the last one.
#[test]
fn overruns_are_noticed() {
    let mut state = SendMessageState::Unused;
    assert_eq!(set_message(&mut state, 1u8), None);
    assert_eq!(set_message(&mut state, 2u8), Some(Overrun::Unsent(1)));
    assert_eq!(state, SendMessageState::Pending(2));

    let mut state = SendMessageState::Flush;
    assert_eq!(set_message(&mut state, 3u8), Some(Overrun::Unflushed));
    assert_eq!(state, SendMessageState::Pending(3));
}
