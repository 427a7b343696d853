//! Keeps a channel's pinned messages in sync with a designated trigger
//! reaction: adding the trigger emoji to a message pins it, and removing
//! the last remaining instance of that emoji unpins it.
//!
//! The crate holds the decision logic only. The live gateway loop, which
//! feeds events in and performs the platform calls the decisions ask for,
//! is ordinary unverified glue around this library.

pub mod dispatch;
pub mod events;
pub mod laws;
pub mod sync;
