//! The plain values the dispatcher and the synchronizer work on: inbound
//! events, message references, reaction snapshots, and the error kinds
//! that platform calls can answer with.

use vstd::prelude::*;

verus! {

/// Identifies a message on the platform: channel plus message id, enough
/// to fetch the message again at decision time.
#[derive(Clone, Copy, PartialEq, Eq, Structural, Debug)]
pub struct MessageRef {
    pub channel_id: u64,
    pub message_id: u64,
}

/// One distinct emoji currently present on a message, with how many users
/// have reacted with it.
#[derive(Clone, Copy, PartialEq, Eq, Structural, Debug)]
pub struct ReactionEntry {
    pub emoji: char,
    pub count: u64,
}

/// The live reactions on a message, queried fresh at decision time; the
/// snapshot at event-emission time is stale and never trusted.
#[derive(Debug)]
pub struct ReactionSnapshot {
    pub entries: Vec<ReactionEntry>,
}

impl View for ReactionSnapshot {
    type V = Seq<ReactionEntry>;

    open spec fn view(&self) -> Seq<ReactionEntry> {
        self.entries@
    }
}

/// An event delivered by the platform gateway, reduced to the kinds the
/// dispatcher distinguishes; everything else arrives as `Other`.
#[derive(Clone, Copy, PartialEq, Eq, Structural, Debug)]
pub enum InboundEvent {
    Ready { bot_identity: u64 },
    ReactionAdded { emoji: char, message: MessageRef },
    ReactionRemoved { emoji: char, message: MessageRef },
    Other,
}

/// Why fetching a message failed: it is gone, or the bot lacks the right
/// to read it.
#[derive(Clone, Copy, PartialEq, Eq, Structural, Debug)]
pub enum FetchError {
    NotFound,
    Forbidden,
}

/// Why a pin or unpin call failed on the platform side.
#[derive(Clone, Copy, PartialEq, Eq, Structural, Debug)]
pub enum MutationError {
    AlreadyPinned,
    AlreadyUnpinned,
    Forbidden,
    RateLimited,
}

/// A pin-state mutation the synchronizer can ask the platform for.
#[derive(Clone, Copy, PartialEq, Eq, Structural, Debug)]
pub enum PinMutation {
    Pin,
    Unpin,
}

/// An error surfaced to the caller for one event's handling. It ends that
/// event's handling only; the dispatcher loop goes on with later events.
#[derive(Clone, Copy, PartialEq, Eq, Structural, Debug)]
pub enum HandlingError {
    NotFound,
    Permission,
    Transient,
}

} // verus!
