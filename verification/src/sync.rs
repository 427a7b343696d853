//! The pin synchronizer: turns a single reaction-changed event into at
//! most one pin or unpin mutation, idempotently.
//!
//! The synchronizer keeps no state of its own. Every decision is made
//! from the event and from a snapshot of the message's reactions fetched
//! fresh at decision time, so concurrent and out-of-order events are
//! tolerated by always acting on the freshest observable state.

use vstd::prelude::*;
use crate::events::FetchError;
use crate::events::HandlingError;
use crate::events::InboundEvent;
use crate::events::MessageRef;
use crate::events::MutationError;
use crate::events::PinMutation;
use crate::events::ReactionEntry;
use crate::events::ReactionSnapshot;

verus! {

/// The designated trigger emoji, the pushpin (U+1F4CC): the one reaction
/// symbol that drives pin and unpin behaviour.
pub const TRIGGER_EMOJI: char = '\u{1F4CC}';

/// Does the snapshot still show `emoji` on the message, with at least one
/// reactor? An entry whose count has dropped to zero counts as absent.
pub open spec fn snapshot_has_emoji(entries: Seq<ReactionEntry>, emoji: char) -> bool {
    exists|i: int|
        0 <= i < entries.len() && entries[i].emoji == emoji && entries[i].count >= 1
}

impl ReactionSnapshot {
    /// Whether the live snapshot still contains `emoji` with a count of at
    /// least one.
    pub fn contains_emoji(&self, emoji: char) -> (present: bool)
        ensures
            present == snapshot_has_emoji(self@, emoji),
    {
        let mut i: usize = 0;
        while i < self.entries.len()
            invariant
                0 <= i <= self.entries.len(),
                forall|j: int|
                    0 <= j < i ==> !(self.entries@[j].emoji == emoji
                        && self.entries@[j].count >= 1),
            decreases self.entries.len() - i,
        {
            if self.entries[i].emoji == emoji && self.entries[i].count >= 1 {
                return true;
            }
            i = i + 1;
        }
        false
    }
}

/// The message a reaction event asks the synchronizer to act on: `Some`
/// exactly when the event is a reaction change whose emoji is the
/// trigger. Every other event is a no-op for the synchronizer.
pub open spec fn spec_reaction_target(event: InboundEvent) -> Option<MessageRef> {
    match event {
        InboundEvent::ReactionAdded { emoji, message } => if emoji == TRIGGER_EMOJI {
            Some(message)
        } else {
            None
        },
        InboundEvent::ReactionRemoved { emoji, message } => if emoji == TRIGGER_EMOJI {
            Some(message)
        } else {
            None
        },
        _ => None,
    }
}

/// The precondition check of both synchronizer operations: the message to
/// fetch and act on, or `None` when the event's emoji is not the trigger
/// (or the event is no reaction change at all).
pub fn reaction_target(event: &InboundEvent) -> (target: Option<MessageRef>)
    ensures
        target == spec_reaction_target(*event),
{
    match event {
        InboundEvent::ReactionAdded { emoji, message } => {
            if *emoji == TRIGGER_EMOJI {
                Some(*message)
            } else {
                None
            }
        },
        InboundEvent::ReactionRemoved { emoji, message } => {
            if *emoji == TRIGGER_EMOJI {
                Some(*message)
            } else {
                None
            }
        },
        _ => None,
    }
}

/// The mutation one reaction event calls for, given the fresh snapshot:
/// an add of the trigger always asks for a pin (the platform's "already
/// pinned" answer is settled later, so pinning stays idempotent); a
/// removal asks for an unpin only when the trigger emoji has vanished
/// from the snapshot. Any other event asks for nothing.
pub open spec fn spec_decide_mutation(
    event: InboundEvent,
    entries: Seq<ReactionEntry>,
) -> Option<PinMutation> {
    match event {
        InboundEvent::ReactionAdded { emoji, .. } => if emoji == TRIGGER_EMOJI {
            Some(PinMutation::Pin)
        } else {
            None
        },
        InboundEvent::ReactionRemoved { emoji, .. } => if emoji == TRIGGER_EMOJI
            && !snapshot_has_emoji(entries, TRIGGER_EMOJI) {
            Some(PinMutation::Unpin)
        } else {
            None
        },
        _ => None,
    }
}

/// Decides the at-most-one mutation for a reaction event, from the
/// snapshot fetched fresh after the event.
pub fn decide_mutation(event: &InboundEvent, snapshot: &ReactionSnapshot) -> (m: Option<
    PinMutation,
>)
    ensures
        m == spec_decide_mutation(*event, snapshot@),
{
    match event {
        InboundEvent::ReactionAdded { emoji, .. } => {
            if *emoji == TRIGGER_EMOJI {
                Some(PinMutation::Pin)
            } else {
                None
            }
        },
        InboundEvent::ReactionRemoved { emoji, .. } => {
            if *emoji == TRIGGER_EMOJI && !snapshot.contains_emoji(TRIGGER_EMOJI) {
                Some(PinMutation::Unpin)
            } else {
                None
            }
        },
        _ => None,
    }
}

/// How a failed message fetch is surfaced: a deleted message is a skipped
/// event, a missing right a permission failure.
pub open spec fn spec_classify_fetch_error(error: FetchError) -> HandlingError {
    match error {
        FetchError::NotFound => HandlingError::NotFound,
        FetchError::Forbidden => HandlingError::Permission,
    }
}

/// Classifies a failed message fetch for the caller.
pub fn classify_fetch_error(error: FetchError) -> (surfaced: HandlingError)
    ensures
        surfaced == spec_classify_fetch_error(error),
{
    match error {
        FetchError::NotFound => HandlingError::NotFound,
        FetchError::Forbidden => HandlingError::Permission,
    }
}

/// How the platform's answer to a pin or unpin is settled: "already in
/// the desired state" is an expected race outcome and is swallowed;
/// permission failures surface as such, rate limits as transient.
pub open spec fn spec_settle_mutation_outcome(outcome: Result<(), MutationError>) -> Result<
    (),
    HandlingError,
> {
    match outcome {
        Ok(()) => Ok(()),
        Err(MutationError::AlreadyPinned) => Ok(()),
        Err(MutationError::AlreadyUnpinned) => Ok(()),
        Err(MutationError::Forbidden) => Err(HandlingError::Permission),
        Err(MutationError::RateLimited) => Err(HandlingError::Transient),
    }
}

/// Settles the platform's answer to an issued mutation, swallowing the
/// already-in-desired-state answers that concurrent reactors provoke.
pub fn settle_mutation_outcome(outcome: Result<(), MutationError>) -> (settled: Result<
    (),
    HandlingError,
>)
    ensures
        settled == spec_settle_mutation_outcome(outcome),
{
    match outcome {
        Ok(()) => Ok(()),
        Err(MutationError::AlreadyPinned) => Ok(()),
        Err(MutationError::AlreadyUnpinned) => Ok(()),
        Err(MutationError::Forbidden) => Err(HandlingError::Permission),
        Err(MutationError::RateLimited) => Err(HandlingError::Transient),
    }
}

/// Everything one event's handling did, given the platform's answers:
/// whether a fresh fetch was made, the at-most-one mutation issued, and
/// the outcome surfaced to the dispatcher.
#[derive(Clone, Copy, Debug)]
pub struct HandlingReport {
    pub fetched: bool,
    pub mutation: Option<PinMutation>,
    pub result: Result<(), HandlingError>,
}

/// The fetch answer with the snapshot reduced to its entries, as the
/// handling spec speaks of it.
pub open spec fn spec_fetch_view(fetch: Result<ReactionSnapshot, FetchError>) -> Result<
    Seq<ReactionEntry>,
    FetchError,
> {
    match fetch {
        Ok(snapshot) => Ok(snapshot@),
        Err(error) => Err(error),
    }
}

/// What handling one reaction event does, as a function of the
/// platform's answers. A non-trigger event fetches nothing and succeeds;
/// a failed fetch surfaces its classification and mutates nothing;
/// otherwise the decided mutation (if any) is issued and the platform's
/// answer to it is settled.
pub open spec fn spec_handle_reaction(
    event: InboundEvent,
    fetch: Result<Seq<ReactionEntry>, FetchError>,
    outcome: Result<(), MutationError>,
) -> HandlingReport {
    if spec_reaction_target(event) is None {
        HandlingReport { fetched: false, mutation: None, result: Ok(()) }
    } else {
        match fetch {
            Err(error) => HandlingReport {
                fetched: true,
                mutation: None,
                result: Err(spec_classify_fetch_error(error)),
            },
            Ok(entries) => match spec_decide_mutation(event, entries) {
                None => HandlingReport { fetched: true, mutation: None, result: Ok(()) },
                Some(mutation) => HandlingReport {
                    fetched: true,
                    mutation: Some(mutation),
                    result: spec_settle_mutation_outcome(outcome),
                },
            },
        }
    }
}

/// Handles one reaction event end to end, with the platform's answers
/// supplied as values: `fetch` is what the mandatory fresh fetch of the
/// message's reactions returned, and `outcome` is what the platform
/// answered to the mutation — consulted only when a mutation is issued
/// at all. The live gateway loop performs the same steps one by one,
/// with the real platform calls in between.
pub fn handle_reaction(
    event: &InboundEvent,
    fetch: &Result<ReactionSnapshot, FetchError>,
    outcome: Result<(), MutationError>,
) -> (report: HandlingReport)
    ensures
        report == spec_handle_reaction(*event, spec_fetch_view(*fetch), outcome),
{
    let target = reaction_target(event);
    if target.is_none() {
        return HandlingReport { fetched: false, mutation: None, result: Ok(()) };
    }
    match fetch {
        Err(error) => HandlingReport {
            fetched: true,
            mutation: None,
            result: Err(classify_fetch_error(*error)),
        },
        Ok(snapshot) => {
            match decide_mutation(event, snapshot) {
                None => HandlingReport { fetched: true, mutation: None, result: Ok(()) },
                Some(mutation) => HandlingReport {
                    fetched: true,
                    mutation: Some(mutation),
                    result: settle_mutation_outcome(outcome),
                },
            }
        },
    }
}

} // verus!
