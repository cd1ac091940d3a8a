use crate::poll::Poll;
use vstd::prelude::*;

verus! {

/// A request to the sink half of a channel.
#[derive(Debug, PartialEq)]
pub enum SinkCall<M> {
    /// Ask whether the sink can take a message.
    PollReady,
    /// Hand this message to the sink.
    StartSend(M),
    /// Flush what the sink has been handed.
    PollFlush,
}

impl<M: View> View for SinkCall<M> {
    type V = SinkCall<M::V>;

    open spec fn view(&self) -> SinkCall<M::V> {
        match self {
            SinkCall::PollReady => SinkCall::PollReady,
            SinkCall::StartSend(message) => SinkCall::StartSend(message@),
            SinkCall::PollFlush => SinkCall::PollFlush,
        }
    }
}

/// What the sink half of a channel answered to a [`SinkCall`].
#[derive(Debug, PartialEq)]
pub enum SinkReply<E> {
    /// The answer to [`SinkCall::PollReady`].
    Ready(Poll<Result<(), E>>),
    /// The answer to [`SinkCall::StartSend`].
    Sent(Result<(), E>),
    /// The answer to [`SinkCall::PollFlush`].
    Flushed(Poll<Result<(), E>>),
}

impl<E> SinkReply<E> {
    /// The error that the sink reported, if any.
    pub open spec fn error(self) -> Option<E> {
        match self {
            SinkReply::Ready(Poll::Ready(Err(err))) => Some(err),
            SinkReply::Sent(Err(err)) => Some(err),
            SinkReply::Flushed(Poll::Ready(Err(err))) => Some(err),
            _ => None,
        }
    }
}

/// How far an operation has come: it waits for the answer to a call, or it
/// is done.
#[derive(Debug, PartialEq)]
pub enum Progress<C, R> {
    /// This call has to be made, and its answer handed back.
    Call(C),
    /// The operation is over.
    Done(R),
}

/// The class of an I/O error.
#[derive(Clone, Copy, Debug, PartialEq, Eq)]
pub enum ErrorKind {
    /// An answer did not arrive in time.
    TimedOut,
    /// Any other error.
    Other,
}

/// An error of a WebSocket channel whose own error type is `E`.
#[derive(Debug, PartialEq)]
pub enum Error<E> {
    /// An error that the channel reported.
    Channel(E),
    /// An I/O error with its class and its description.
    Io(ErrorKind, String),
    /// The channel has been closed already.
    AlreadyClosed,
}

/// What an [`Error`] holds.
#[verifier::ext_equal]
pub enum ErrorModel<E> {
    Channel(E),
    Io(ErrorKind, Seq<char>),
    AlreadyClosed,
}

impl<E> View for Error<E> {
    type V = ErrorModel<E>;

    open spec fn view(&self) -> ErrorModel<E> {
        match self {
            Error::Channel(err) => ErrorModel::Channel(*err),
            Error::Io(kind, text) => ErrorModel::Io(*kind, text@),
            Error::AlreadyClosed => ErrorModel::AlreadyClosed,
        }
    }
}

/// The error that reports a peer which left a ping without an answer.
pub open spec fn missed_pong_model<E>(kind: ErrorKind) -> ErrorModel<E> {
    ErrorModel::Io(kind, "server failed to respond to pings"@)
}

/// The error that reports a peer which left a ping without an answer.
pub fn missed_pong<E>(kind: ErrorKind) -> (err: Error<E>)
    ensures
        err@ == missed_pong_model::<E>(kind),
{
    Error::Io(kind, "server failed to respond to pings".to_owned())
}

} // verus!
