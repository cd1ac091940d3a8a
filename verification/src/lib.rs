//! Building blocks for working with a WebSocket channel.
//!
//! Everything here is a state machine without I/O: a step takes what the
//! channel, the timer or the peer has just answered and returns the next
//! request. Whoever owns the channel carries the requests out.

/// What is asked of a channel, and what it may answer.
pub mod channel;
/// Messages, as the channel carries them and as the user sees them.
pub mod message;
pub mod model_laws;
/// The answer of an operation that may not be finished yet.
pub mod poll;
/// The slot that gets a control message on its way.
pub mod send;
pub mod send_laws;
pub mod stream;
pub mod stream_history_laws;
pub mod stream_laws;
pub mod subscribe;
pub mod subscribe_laws;
/// Spans of time.
pub mod time;
pub mod wrap;
pub mod wrap_history_laws;
pub mod wrap_laws;

/// Re-export of the tungstenite version the crate interfaces with.
pub use tokio_tungstenite::tungstenite;
