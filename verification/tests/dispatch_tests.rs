//! Routing and readiness handling in the event dispatcher.

use reaction_pin::dispatch::DispatcherState;
use reaction_pin::dispatch::route;
use reaction_pin::dispatch::Route;
use reaction_pin::events::InboundEvent;
use reaction_pin::events::MessageRef;

fn msg() -> MessageRef {
    MessageRef { channel_id: 5, message_id: 6 }
}

#[test]
fn every_event_kind_routes_to_exactly_one_handler() {
    assert_eq!(route(&InboundEvent::Ready { bot_identity: 1 }), Route::Ready);
    assert_eq!(
        route(&InboundEvent::ReactionAdded { emoji: '\u{1F4CC}', message: msg() }),
        Route::Reaction
    );
    assert_eq!(
        route(&InboundEvent::ReactionRemoved { emoji: '\u{1F44D}', message: msg() }),
        Route::Reaction
    );
    assert_eq!(route(&InboundEvent::Other), Route::Ignore);
}

#[test]
fn ready_records_identity_and_presence() {
    let mut state = DispatcherState::new();
    assert!(state.bot_identity.is_none());
    let presence = state.on_ready(31337);
    assert_eq!(state.bot_identity, Some(31337));
    assert_eq!(presence, "water game");
}

#[test]
fn later_ready_overwrites_without_error() {
    let mut state = DispatcherState::new();
    state.on_ready(1);
    state.on_ready(2);
    assert_eq!(state.bot_identity, Some(2));
}
