//! The supervisor of the bus subscription: it keeps one subscription alive,
//! hands every payload on untouched, and answers every failure with a pause
//! and another attempt.

use vstd::prelude::*;

verus! {

/// Seconds to wait before another attempt to subscribe.
pub const BACKOFF_SECS: u64 = 2;

/// Where the bridge is in its loop.
#[derive(Clone, Copy, Debug, PartialEq, Eq, Structural)]
pub enum BridgeState {
    Disconnected,
    Subscribing,
    Streaming,
}

/// What the bus, or the clock, reports to the bridge.
#[derive(Clone, Debug, PartialEq, Eq)]
pub enum BridgeEvent {
    /// The pause is over.
    BackoffElapsed,
    /// The subscription stands.
    Subscribed,
    /// Connecting or subscribing failed.
    SubscribeFailed,
    /// A payload arrived on the subscription.
    Payload(Vec<u8>),
    /// The subscription's stream ended.
    StreamEnded,
}

/// What the bridge asks its driver to do next.
#[derive(Clone, Debug, PartialEq, Eq)]
pub enum BridgeAction {
    /// Connect and subscribe to the tenant-spanning pattern, then report
    /// `Subscribed` or `SubscribeFailed`.
    Subscribe,
    /// Wait for the next payload, then report `Payload` or `StreamEnded`.
    Receive,
    /// Hand the payload to the hub as it is, then wait for the next one.
    Forward(Vec<u8>),
    /// Sleep for this many seconds, then report `BackoffElapsed`.
    Backoff(u64),
}

/// The bridge.
#[derive(Clone, Copy, Debug, PartialEq, Eq)]
pub struct Bridge {
    pub state: BridgeState,
}

/// The state after an event. What a state does not expect counts as a
/// failure and leads back to `Disconnected`.
pub open spec fn bridge_next(state: BridgeState, event: BridgeEvent) -> BridgeState {
    match (state, event) {
        (BridgeState::Disconnected, BridgeEvent::BackoffElapsed) => BridgeState::Subscribing,
        (BridgeState::Subscribing, BridgeEvent::Subscribed) => BridgeState::Streaming,
        (BridgeState::Streaming, BridgeEvent::Payload(_)) => BridgeState::Streaming,
        _ => BridgeState::Disconnected,
    }
}

/// The action that answers an event.
pub open spec fn bridge_action(state: BridgeState, event: BridgeEvent) -> BridgeAction {
    match (state, event) {
        (BridgeState::Disconnected, BridgeEvent::BackoffElapsed) => BridgeAction::Subscribe,
        (BridgeState::Subscribing, BridgeEvent::Subscribed) => BridgeAction::Receive,
        (BridgeState::Streaming, BridgeEvent::Payload(p)) => BridgeAction::Forward(p),
        _ => BridgeAction::Backoff(BACKOFF_SECS),
    }
}

impl Bridge {
    /// A bridge that has not subscribed yet, and the action that starts it.
    pub fn start() -> (r: (Bridge, BridgeAction))
        ensures
            r.0.state == BridgeState::Subscribing,
            r.1 == BridgeAction::Subscribe,
    {
        (Bridge { state: BridgeState::Subscribing }, BridgeAction::Subscribe)
    }

    /// Takes an event and says what to do next.
    pub fn step(&mut self, event: BridgeEvent) -> (action: BridgeAction)
        ensures
            final(self).state == bridge_next(old(self).state, event),
            action == bridge_action(old(self).state, event),
    {
        match (self.state, event) {
            (BridgeState::Disconnected, BridgeEvent::BackoffElapsed) => {
                self.state = BridgeState::Subscribing;
                BridgeAction::Subscribe
            },
            (BridgeState::Subscribing, BridgeEvent::Subscribed) => {
                self.state = BridgeState::Streaming;
                BridgeAction::Receive
            },
            (BridgeState::Streaming, BridgeEvent::Payload(p)) => BridgeAction::Forward(p),
            _ => {
                self.state = BridgeState::Disconnected;
                BridgeAction::Backoff(BACKOFF_SECS)
            },
        }
    }
}

/// Bridge resilience: when subscribing fails or the stream ends, in whatever
/// state, the bridge pauses and then subscribes again; once the subscription
/// stands it forwards every payload untouched. No state is final.
pub proof fn lemma_bridge_retries(state: BridgeState, failure: BridgeEvent, payload: Vec<u8>)
    requires
        failure is SubscribeFailed || failure is StreamEnded,
    ensures
        bridge_next(state, failure) == BridgeState::Disconnected,
        bridge_action(state, failure) == BridgeAction::Backoff(BACKOFF_SECS),
        bridge_next(BridgeState::Disconnected, BridgeEvent::BackoffElapsed)
            == BridgeState::Subscribing,
        bridge_action(BridgeState::Disconnected, BridgeEvent::BackoffElapsed)
            == BridgeAction::Subscribe,
        bridge_next(BridgeState::Subscribing, BridgeEvent::Subscribed) == BridgeState::Streaming,
        bridge_action(BridgeState::Subscribing, BridgeEvent::Subscribed) == BridgeAction::Receive,
        bridge_next(BridgeState::Streaming, BridgeEvent::Payload(payload))
            == BridgeState::Streaming,
        bridge_action(BridgeState::Streaming, BridgeEvent::Payload(payload))
            == BridgeAction::Forward(payload),
{
}

} // verus!
