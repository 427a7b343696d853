//! The event dispatcher: routes each inbound event to exactly one
//! handler, and records the per-connection context a `Ready` event
//! carries. Events are handled independently; routing one never depends
//! on what earlier events did.

use vstd::prelude::*;
use crate::events::InboundEvent;

verus! {

/// The handler the dispatcher picks for an event: the readiness handler,
/// the pin synchronizer, or none at all (unknown kinds are explicitly
/// ignored, not errors).
#[derive(Clone, Copy, PartialEq, Eq, Structural, Debug)]
pub enum Route {
    Ready,
    Reaction,
    Ignore,
}

/// The route an event takes: `Ready` events go to the readiness handler,
/// both reaction changes go to the pin synchronizer, everything else is
/// ignored.
pub open spec fn spec_route(event: InboundEvent) -> Route {
    match event {
        InboundEvent::Ready { .. } => Route::Ready,
        InboundEvent::ReactionAdded { .. } => Route::Reaction,
        InboundEvent::ReactionRemoved { .. } => Route::Reaction,
        InboundEvent::Other => Route::Ignore,
    }
}

/// Picks the one handler for an inbound event.
pub fn route(event: &InboundEvent) -> (r: Route)
    ensures
        r == spec_route(*event),
{
    match event {
        InboundEvent::Ready { .. } => Route::Ready,
        InboundEvent::ReactionAdded { .. } => Route::Reaction,
        InboundEvent::ReactionRemoved { .. } => Route::Reaction,
        InboundEvent::Other => Route::Ignore,
    }
}

/// The presence text the bot advertises once the connection is ready.
pub open spec fn spec_presence_text() -> Seq<char> {
    "water game"@
}

/// Per-connection context the dispatcher keeps: the bot's own identity,
/// learned from the first `Ready` event. It exists for self-filtering
/// should the emoji check ever exclude the bot's own reactions; current
/// pin logic does not read it.
pub struct DispatcherState {
    pub bot_identity: Option<u64>,
}

impl DispatcherState {
    /// A fresh dispatcher: no `Ready` event seen yet on this connection.
    pub fn new() -> (s: Self)
        ensures
            s.bot_identity is None,
    {
        DispatcherState { bot_identity: None }
    }

    /// Handles a `Ready` event: records the bot's identity and hands back
    /// the presence text to set. Recording twice is not an error — a later
    /// `Ready` simply overwrites the identity.
    pub fn on_ready(&mut self, bot_identity: u64) -> (presence: &'static str)
        ensures
            final(self).bot_identity == Some(bot_identity),
            presence@ == spec_presence_text(),
    {
        self.bot_identity = Some(bot_identity);
        "water game"
    }
}

} // verus!
