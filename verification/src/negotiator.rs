//! Per-peer perfect-negotiation state machine.
//!
//! One negotiator drives one peer from `Disconnected` to `Connected` by
//! exchanging offers, answers and ICE candidates. The subtle part is an offer
//! collision: both sides try to initiate at once. Perfect negotiation breaks
//! the tie with the pair's fixed roles: the impolite side ignores the
//! colliding remote offer and lets its own proceed, the polite side rolls its
//! own offer back and accepts the remote one.
//!
//! The machine is a pure transition function from state and event to next
//! state and action. The surrounding runtime owns the transport capability:
//! it feeds events in — local triggers, prepared descriptions, inbound
//! packets, transport notifications — and performs the returned action —
//! asking the transport for a description, sending a packet, applying a
//! remote description or candidate. Transport calls that fail are reported
//! through [`Negotiator::on_failure`], which resets the peer to
//! `Disconnected` so a fresh trigger can retry; nothing panics and no other
//! peer is affected.

use vstd::prelude::*;

verus! {

/// Connection progress of one peer, as shown to the registry's readers.
#[derive(Clone, Copy, Debug, PartialEq, Eq, Structural)]
pub enum ConnectionState {
    Disconnected,
    Connecting,
    Connected,
}

/// The transport capability's signaling state, mirrored from its
/// set-description calls: `Stable` outside an exchange, otherwise an offer is
/// pending on one side.
#[derive(Clone, Copy, Debug, PartialEq, Eq, Structural)]
pub enum SignalingState {
    Stable,
    HaveLocalOffer,
    HaveRemoteOffer,
}

/// A connection-state-changed notification from the transport capability.
/// Only `Connecting` and `Connected` are meaningful to readers; every other
/// value maps conservatively to `Disconnected`.
#[derive(Clone, Copy, Debug, PartialEq, Eq, Structural)]
pub enum TransportState {
    New,
    Connecting,
    Connected,
    Disconnected,
    Failed,
    Closed,
}

/// Phase of the exchange in which a transport call failed.
#[derive(Clone, Copy, Debug, PartialEq, Eq, Structural)]
pub enum NegotiationPhase {
    CreateOffer,
    CreateAnswer,
    SetLocalDescription,
    SetRemoteDescription,
    AddCandidate,
}

/// A transport-capability call failed while negotiating with one peer. The
/// failure is local to that peer: its negotiator resets to `Disconnected`
/// and waits for a fresh trigger.
#[derive(Clone, Debug, PartialEq, Eq)]
pub struct NegotiationError {
    pub peer_id: String,
    pub phase: NegotiationPhase,
}

/// An event consumed by the negotiation state machine. Description and
/// candidate texts are opaque to the machine.
#[derive(Clone, Debug, PartialEq, Eq)]
pub enum NegotiationEvent {
    /// The transport asked for a (re)negotiation.
    NegotiationNeeded,
    /// A local offer was created and installed as the local description.
    OfferPrepared(String),
    /// A local answer was created and installed as the local description.
    AnswerPrepared(String),
    /// The transport discovered a local ICE candidate.
    LocalCandidate(String),
    /// The peer's offer arrived.
    RemoteOffer(String),
    /// The peer's answer arrived.
    RemoteAnswer(String),
    /// One of the peer's ICE candidates arrived.
    RemoteCandidate(String),
    /// The transport reported a connection-state change.
    TransportStateChanged(TransportState),
}

/// What the runtime must do next on behalf of the state machine.
#[derive(Clone, Debug, PartialEq, Eq)]
pub enum NegotiationAction {
    /// Ask the transport for an offer and install it as the local
    /// description; report back with `OfferPrepared`.
    BeginOffer,
    /// Send this offer to the peer.
    SendOffer(String),
    /// Install the remote offer (after a rollback of the in-flight local
    /// description when `rollback` is set), ask the transport for an answer,
    /// install it locally, and report back with `AnswerPrepared`.
    AcceptOffer { rollback: bool, sdp: String },
    /// Send this answer to the peer.
    SendAnswer(String),
    /// Install the peer's answer as the remote description.
    ApplyAnswer(String),
    /// Hand the peer's candidate to the transport.
    AddRemoteCandidate(String),
    /// Send this local candidate to the peer at once; candidates are never
    /// buffered.
    SendCandidate(String),
    /// Publish the new connection state to the registry's shared cell.
    PublishState(ConnectionState),
    /// Nothing to do.
    Ignore,
}

/// Negotiation state of one peer: the pair role, the offer guard, the
/// mirrored signaling state and the published connection state.
#[derive(Clone, Copy, Debug, PartialEq, Eq, Structural)]
pub struct Negotiator {
    /// This side's fixed role toward the peer; see [`crate::polite`].
    pub polite: bool,
    /// Set between asking the transport for an offer and sending it; part of
    /// the collision test.
    pub making_offer: bool,
    /// Mirror of the transport's signaling state.
    pub signaling: SignalingState,
    /// What the registry's readers see.
    pub state: ConnectionState,
}

/// The state a freshly discovered peer's negotiator starts in.
pub open spec fn spec_fresh(polite: bool) -> Negotiator {
    Negotiator {
        polite,
        making_offer: false,
        signaling: SignalingState::Stable,
        state: ConnectionState::Disconnected,
    }
}

/// An incoming offer collides with this side's own negotiation attempt.
pub open spec fn spec_collision(n: Negotiator) -> bool {
    !(n.signaling is Stable) || n.making_offer
}

/// How a transport notification maps to the published connection state.
pub open spec fn spec_connection_state_of(t: TransportState) -> ConnectionState {
    match t {
        TransportState::Connecting => ConnectionState::Connecting,
        TransportState::Connected => ConnectionState::Connected,
        _ => ConnectionState::Disconnected,
    }
}

/// The complete transition function of the negotiation state machine.
pub open spec fn spec_step(n: Negotiator, e: NegotiationEvent) -> (Negotiator, NegotiationAction) {
    match e {
        NegotiationEvent::NegotiationNeeded => {
            if n.making_offer {
                (n, NegotiationAction::Ignore)
            } else {
                (
                    (Negotiator { making_offer: true, ..n }),
                    NegotiationAction::BeginOffer,
                )
            }
        },
        NegotiationEvent::OfferPrepared(sdp) => {
            if n.making_offer {
                (
                    (Negotiator {
                        making_offer: false,
                        signaling: SignalingState::HaveLocalOffer,
                        ..n
                    }),
                    NegotiationAction::SendOffer(sdp),
                )
            } else {
                (n, NegotiationAction::Ignore)
            }
        },
        NegotiationEvent::AnswerPrepared(sdp) => {
            if n.signaling is HaveRemoteOffer {
                (
                    (Negotiator { signaling: SignalingState::Stable, ..n }),
                    NegotiationAction::SendAnswer(sdp),
                )
            } else {
                (n, NegotiationAction::Ignore)
            }
        },
        NegotiationEvent::LocalCandidate(c) => (n, NegotiationAction::SendCandidate(c)),
        NegotiationEvent::RemoteOffer(sdp) => {
            if spec_collision(n) && !n.polite {
                (n, NegotiationAction::Ignore)
            } else {
                (
                    (Negotiator {
                        making_offer: false,
                        signaling: SignalingState::HaveRemoteOffer,
                        ..n
                    }),
                    NegotiationAction::AcceptOffer { rollback: spec_collision(n), sdp },
                )
            }
        },
        NegotiationEvent::RemoteAnswer(sdp) => (
            (Negotiator { signaling: SignalingState::Stable, ..n }),
            NegotiationAction::ApplyAnswer(sdp),
        ),
        NegotiationEvent::RemoteCandidate(c) => (n, NegotiationAction::AddRemoteCandidate(c)),
        NegotiationEvent::TransportStateChanged(t) => (
            (Negotiator { state: spec_connection_state_of(t), ..n }),
            NegotiationAction::PublishState(spec_connection_state_of(t)),
        ),
    }
}

impl Negotiator {
    /// Starts negotiation state for a freshly discovered peer with the given
    /// pair role.
    pub fn new(polite: bool) -> (n: Negotiator)
        ensures
            n == spec_fresh(polite),
    {
        Negotiator {
            polite,
            making_offer: false,
            signaling: SignalingState::Stable,
            state: ConnectionState::Disconnected,
        }
    }

    /// Consumes one event and returns the action the runtime must perform.
    ///
    /// The collision asymmetry of perfect negotiation is visible in the
    /// contract: on a colliding remote offer the impolite side changes
    /// nothing and answers nothing, while every accepted offer is answered,
    /// rolling back first exactly when it collided.
    pub fn handle(&mut self, event: NegotiationEvent) -> (action: NegotiationAction)
        ensures
            (*final(self), action) == spec_step(*old(self), event),
            final(self).polite == old(self).polite,
            (event is RemoteOffer && spec_collision(*old(self)) && !old(self).polite)
                ==> (*final(self) == *old(self) && action is Ignore),
            (event is RemoteOffer && !(spec_collision(*old(self)) && !old(self).polite))
                ==> (action is AcceptOffer && final(self).signaling is HaveRemoteOffer),
            event is RemoteAnswer ==> action is ApplyAnswer && final(self).signaling is Stable,
            event is TransportStateChanged
                ==> final(self).state == spec_connection_state_of(event->TransportStateChanged_0),
    {
        match event {
            NegotiationEvent::NegotiationNeeded => {
                if self.making_offer {
                    NegotiationAction::Ignore
                } else {
                    self.making_offer = true;
                    NegotiationAction::BeginOffer
                }
            },
            NegotiationEvent::OfferPrepared(sdp) => {
                if self.making_offer {
                    self.making_offer = false;
                    self.signaling = SignalingState::HaveLocalOffer;
                    NegotiationAction::SendOffer(sdp)
                } else {
                    NegotiationAction::Ignore
                }
            },
            NegotiationEvent::AnswerPrepared(sdp) => {
                if matches!(self.signaling, SignalingState::HaveRemoteOffer) {
                    self.signaling = SignalingState::Stable;
                    NegotiationAction::SendAnswer(sdp)
                } else {
                    NegotiationAction::Ignore
                }
            },
            NegotiationEvent::LocalCandidate(c) => NegotiationAction::SendCandidate(c),
            NegotiationEvent::RemoteOffer(sdp) => {
                let collision = !matches!(self.signaling, SignalingState::Stable)
                    || self.making_offer;
                if collision && !self.polite {
                    NegotiationAction::Ignore
                } else {
                    self.making_offer = false;
                    self.signaling = SignalingState::HaveRemoteOffer;
                    NegotiationAction::AcceptOffer { rollback: collision, sdp }
                }
            },
            NegotiationEvent::RemoteAnswer(sdp) => {
                self.signaling = SignalingState::Stable;
                NegotiationAction::ApplyAnswer(sdp)
            },
            NegotiationEvent::RemoteCandidate(c) => NegotiationAction::AddRemoteCandidate(c),
            NegotiationEvent::TransportStateChanged(t) => {
                let mapped = connection_state_of(t);
                self.state = mapped;
                NegotiationAction::PublishState(mapped)
            },
        }
    }

    /// Records a failed transport call: this peer resets to `Disconnected`
    /// with no negotiation in flight and the failure is reported as a
    /// recoverable error naming the peer and the phase.
    pub fn on_failure(&mut self, peer_id: String, phase: NegotiationPhase) -> (e: NegotiationError)
        ensures
            final(self).polite == old(self).polite,
            final(self).making_offer == false,
            final(self).signaling is Stable,
            final(self).state is Disconnected,
            e.peer_id == peer_id,
            e.phase == phase,
    {
        self.making_offer = false;
        self.signaling = SignalingState::Stable;
        self.state = ConnectionState::Disconnected;
        NegotiationError { peer_id, phase }
    }
}

/// Maps a transport notification to the conservative published state.
pub fn connection_state_of(t: TransportState) -> (c: ConnectionState)
    ensures
        c == spec_connection_state_of(t),
{
    match t {
        TransportState::Connecting => ConnectionState::Connecting,
        TransportState::Connected => ConnectionState::Connected,
        _ => ConnectionState::Disconnected,
    }
}

/// Offer collision resolution. When an impolite side and a polite side both
/// start an offer before either has seen the other's, the impolite side
/// ignores the colliding offer and keeps its own, the polite side rolls its
/// own back and answers, and after the answer and the transport's
/// notifications both sides converge to `Connected` with stable signaling:
/// no deadlock and exactly one of the two offers is accepted.
pub proof fn lemma_offer_collision_resolves(offer_a: String, offer_b: String, answer_b: String)
    ensures
        ({
            // Side A is impolite, side B is polite; both start disconnected.
            let a0 = spec_fresh(false);
            let b0 = spec_fresh(true);
            // Both sides trigger and send their own offer first.
            let (a1, act_a1) = spec_step(a0, NegotiationEvent::NegotiationNeeded);
            let (a2, act_a2) = spec_step(a1, NegotiationEvent::OfferPrepared(offer_a));
            let (b1, act_b1) = spec_step(b0, NegotiationEvent::NegotiationNeeded);
            let (b2, act_b2) = spec_step(b1, NegotiationEvent::OfferPrepared(offer_b));
            // Then each receives the other's offer: a collision on both sides.
            let (a3, act_a3) = spec_step(a2, NegotiationEvent::RemoteOffer(offer_b));
            let (b3, act_b3) = spec_step(b2, NegotiationEvent::RemoteOffer(offer_a));
            // B answers A's offer; A applies the answer.
            let (b4, act_b4) = spec_step(b3, NegotiationEvent::AnswerPrepared(answer_b));
            let (a4, act_a4) = spec_step(a3, NegotiationEvent::RemoteAnswer(answer_b));
            // The transports report the established connection.
            let (a5, act_a5) = spec_step(
                a4,
                NegotiationEvent::TransportStateChanged(TransportState::Connected),
            );
            let (b5, act_b5) = spec_step(
                b4,
                NegotiationEvent::TransportStateChanged(TransportState::Connected),
            );
            &&& act_a2 == NegotiationAction::SendOffer(offer_a)
            &&& act_b2 == NegotiationAction::SendOffer(offer_b)
            // The impolite side ignores the colliding offer and is unchanged.
            &&& act_a3 is Ignore
            &&& a3 == a2
            // The polite side rolls back its own offer and accepts A's.
            &&& act_b3 == (NegotiationAction::AcceptOffer { rollback: true, sdp: offer_a })
            // Exactly one answer is produced, for A's offer.
            &&& act_b4 == NegotiationAction::SendAnswer(answer_b)
            &&& act_a4 == NegotiationAction::ApplyAnswer(answer_b)
            // Both sides converge: connected, stable, nothing in flight.
            &&& a5.state is Connected
            &&& b5.state is Connected
            &&& a5.signaling is Stable
            &&& b5.signaling is Stable
            &&& !a5.making_offer
            &&& !b5.making_offer
        }),
{
}

/// The offer guard alone also detects a collision: when the remote offer
/// arrives after the polite side's own trigger but before its local
/// description exists, the polite side still rolls back and answers, its
/// abandoned attempt is forgotten, and the attempt's late description is
/// ignored instead of being sent as a competing offer.
pub proof fn lemma_offer_collision_early_arrival(
    offer_a: String,
    stale_b: String,
    answer_b: String,
)
    ensures
        ({
            let b0 = spec_fresh(true);
            let (b1, act_b1) = spec_step(b0, NegotiationEvent::NegotiationNeeded);
            let (b2, act_b2) = spec_step(b1, NegotiationEvent::RemoteOffer(offer_a));
            let (b3, act_b3) = spec_step(b2, NegotiationEvent::OfferPrepared(stale_b));
            let (b4, act_b4) = spec_step(b3, NegotiationEvent::AnswerPrepared(answer_b));
            &&& act_b1 is BeginOffer
            &&& b1.making_offer
            &&& b1.signaling is Stable
            &&& act_b2 == (NegotiationAction::AcceptOffer { rollback: true, sdp: offer_a })
            &&& act_b3 is Ignore
            &&& b3 == b2
            &&& act_b4 == NegotiationAction::SendAnswer(answer_b)
            &&& b4.signaling is Stable
            &&& !b4.making_offer
        }),
{
}

} // verus!

