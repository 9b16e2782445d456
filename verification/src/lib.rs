//! The decisions of a consumer that owns a polling thread.
//!
//! A blocking "fetch the next message or time out" call is turned into a
//! stream of messages by a loop on a thread of its own. The loop hands each
//! result to the stream through a channel without buffer. This crate holds
//! everything that such a consumer decides: what the loop does with each
//! result of a fetch and when it ends, what the stream yields for what it
//! receives, who owns a fetched message, and when a polling thread is to be
//! told to stop and joined. Whoever runs the thread, the channel and the
//! native client carries out the actions and reports the events.

pub mod consumer;
pub mod error;
pub mod handle;
pub mod interval;
pub mod laws;
pub mod message_stream;
pub mod poll_loop;
pub mod trace;
