//! The guarantees the synchronizer gives, stated and proved over the
//! handling spec: what a non-trigger event may do (nothing), when
//! exactly one pin or unpin is issued, and why redundant pin attempts
//! from concurrent reactors surface no error.

use vstd::prelude::*;
use crate::dispatch::spec_route;
use crate::dispatch::Route;
use crate::events::FetchError;
use crate::events::InboundEvent;
use crate::events::MutationError;
use crate::events::PinMutation;
use crate::events::ReactionEntry;
use crate::sync::spec_handle_reaction;
use crate::sync::spec_reaction_target;
use crate::sync::snapshot_has_emoji;
use crate::sync::TRIGGER_EMOJI;

verus! {

/// A reaction change whose emoji is not the trigger is a complete no-op:
/// no fetch, no pin or unpin mutation, and handling reports success —
/// whatever the platform would have answered.
pub proof fn lemma_foreign_emoji_is_noop(
    event: InboundEvent,
    fetch: Result<Seq<ReactionEntry>, FetchError>,
    outcome: Result<(), MutationError>,
)
    requires
        (event matches InboundEvent::ReactionAdded { emoji, .. } && emoji != TRIGGER_EMOJI)
            || (event matches InboundEvent::ReactionRemoved { emoji, .. }
            && emoji != TRIGGER_EMOJI),
    ensures
        ({
            let report = spec_handle_reaction(event, fetch, outcome);
            &&& !report.fetched
            &&& report.mutation is None
            &&& report.result is Ok
        }),
{
}

/// Adding the trigger emoji issues exactly one pin mutation whenever the
/// fresh fetch of the message succeeds — in particular for a message
/// that is currently unpinned. The current pin state is never consulted:
/// the pin call itself is idempotent, and its "already pinned" answer is
/// settled separately.
pub proof fn lemma_trigger_add_pins_once(
    event: InboundEvent,
    fetch: Result<Seq<ReactionEntry>, FetchError>,
    outcome: Result<(), MutationError>,
)
    requires
        event matches InboundEvent::ReactionAdded { emoji, .. } && emoji == TRIGGER_EMOJI,
        fetch is Ok,
    ensures
        ({
            let report = spec_handle_reaction(event, fetch, outcome);
            &&& report.fetched
            &&& report.mutation == Some(PinMutation::Pin)
        }),
{
}

/// Multi-reactor non-interference: when the post-removal snapshot still
/// shows at least one trigger emoji (another user's reaction survives),
/// no unpin mutation is issued and the message stays pinned.
pub proof fn lemma_surviving_trigger_blocks_unpin(
    event: InboundEvent,
    entries: Seq<ReactionEntry>,
    outcome: Result<(), MutationError>,
)
    requires
        event matches InboundEvent::ReactionRemoved { emoji, .. } && emoji == TRIGGER_EMOJI,
        snapshot_has_emoji(entries, TRIGGER_EMOJI),
    ensures
        ({
            let report = spec_handle_reaction(event, Ok(entries), outcome);
            &&& report.fetched
            &&& report.mutation is None
            &&& report.result is Ok
        }),
{
}

/// When the post-removal snapshot shows no trigger emoji at all, exactly
/// one unpin mutation is issued.
pub proof fn lemma_vanished_trigger_unpins_once(
    event: InboundEvent,
    entries: Seq<ReactionEntry>,
    outcome: Result<(), MutationError>,
)
    requires
        event matches InboundEvent::ReactionRemoved { emoji, .. } && emoji == TRIGGER_EMOJI,
        !snapshot_has_emoji(entries, TRIGGER_EMOJI),
    ensures
        ({
            let report = spec_handle_reaction(event, Ok(entries), outcome);
            &&& report.fetched
            &&& report.mutation == Some(PinMutation::Unpin)
        }),
{
}

/// Idempotence of pinning: the synchronizer keeps no state, so handling
/// the same trigger-add twice in a row decides identically both times,
/// and neither handling surfaces an error — the second attempt's
/// "already pinned" answer from the platform is swallowed, not
/// propagated.
pub proof fn lemma_repeated_add_surfaces_no_error(
    event: InboundEvent,
    fetch: Result<Seq<ReactionEntry>, FetchError>,
    first: Result<(), MutationError>,
    second: Result<(), MutationError>,
)
    requires
        event matches InboundEvent::ReactionAdded { emoji, .. } && emoji == TRIGGER_EMOJI,
        fetch is Ok,
        first is Ok || first == Err::<(), MutationError>(MutationError::AlreadyPinned),
        second is Ok || second == Err::<(), MutationError>(MutationError::AlreadyPinned),
    ensures
        spec_handle_reaction(event, fetch, first).result is Ok,
        spec_handle_reaction(event, fetch, second).result is Ok,
        spec_handle_reaction(event, fetch, first).mutation == spec_handle_reaction(
            event,
            fetch,
            second,
        ).mutation,
{
}

/// The dispatcher loses no work for the synchronizer: an event routed
/// anywhere but to the reaction handler names no message to act on, so
/// ignoring it there can never skip a pin or unpin.
pub proof fn lemma_routing_loses_no_reaction_work(event: InboundEvent)
    ensures
        spec_route(event) != Route::Reaction ==> spec_reaction_target(event) is None,
{
}

} // verus!
