//! The peer registry: the single authoritative owner of the peer set.
//!
//! Discovery events flow in and are applied idempotently: a duplicate
//! `PeerFound` changes nothing, a `PeerLost` for an unknown id is a no-op.
//! Each stored peer aggregates its immutable identity, its published
//! connection state and its negotiation state machine; the registry keeps the
//! published state and the machine's own state in step. Readers never iterate
//! the live set: they take a `snapshot`, a clone of what they need.
//!
//! The surrounding runtime serializes access (one lock around the registry,
//! held only for a mutation or a snapshot copy, never across a suspension
//! point); the methods here are the entire surface that lock guards.

use crate::negotiator::{
    ConnectionState, NegotiationAction, NegotiationError, NegotiationEvent, NegotiationPhase,
    Negotiator, spec_fresh, spec_step,
};
use crate::polite::{polite, spec_polite};
use vstd::prelude::*;

verus! {

/// Identity and static facts about a discovered peer. Created once when the
/// peer is first discovered, immutable afterwards; `polite` is derived from
/// the two ids at creation and never re-derived.
#[derive(Clone, Debug)]
pub struct PeerInfo {
    /// The peer's unique id, the negotiation tie-breaker.
    pub id: String,
    /// This node's own id, kept alongside for addressing packets.
    pub our_id: String,
    /// The peer's network address, as text.
    pub address: String,
    /// Advertised capability flag: the peer is a mobile device.
    pub mobile: bool,
    /// This side's negotiation role toward the peer.
    pub polite: bool,
}

impl PeerInfo {
    /// The stored role matches what the id pair derives.
    pub open spec fn wf(self) -> bool {
        self.polite == spec_polite(self.our_id@, self.id@)
    }

    /// Builds the info for a freshly discovered peer, deriving this side's
    /// role from the id pair.
    pub fn new(id: String, our_id: String, address: String, mobile: bool) -> (info: PeerInfo)
        ensures
            info.wf(),
            info.id == id,
            info.our_id == our_id,
            info.address == address,
            info.mobile == mobile,
    {
        let role = polite(our_id.as_str(), id.as_str());
        PeerInfo { id, our_id, address, mobile, polite: role }
    }
}

/// A discovery event: a peer appeared with its facts, or a peer's id went
/// away.
pub enum Status {
    PeerFound(PeerInfo),
    PeerLost { id: String },
}

/// One registered peer: identity, the connection state published to readers,
/// and the negotiation state machine driving it.
pub struct Peer {
    pub info: PeerInfo,
    pub state: ConnectionState,
    pub negotiator: Negotiator,
}

impl Peer {
    /// The peer's role is consistent everywhere and the published state is
    /// the machine's own.
    pub open spec fn wf(self) -> bool {
        &&& self.info.wf()
        &&& self.negotiator.polite == self.info.polite
        &&& self.state == self.negotiator.state
    }
}

/// The peer a `PeerFound` event registers: disconnected, nothing in flight.
pub open spec fn spec_fresh_peer(info: PeerInfo) -> Peer {
    Peer { info, state: ConnectionState::Disconnected, negotiator: spec_fresh(info.polite) }
}

/// There is a peer with this id.
pub open spec fn spec_contains_id(s: Seq<Peer>, id: Seq<char>) -> bool {
    exists|i: int| 0 <= i < s.len() && #[trigger] s[i].info.id@ == id
}

/// The index of the peer with this id; meaningful only while the id is
/// present (and then unique, by `spec_peers_wf`).
pub open spec fn spec_index_of(s: Seq<Peer>, id: Seq<char>) -> int {
    choose|i: int| 0 <= i < s.len() && #[trigger] s[i].info.id@ == id
}

/// Registry invariant: ids are unique and every stored peer is consistent.
pub open spec fn spec_peers_wf(s: Seq<Peer>) -> bool {
    &&& forall|i: int, j: int|
        #![trigger s[i].info.id@, s[j].info.id@]
        0 <= i < s.len() && 0 <= j < s.len() && i != j ==> s[i].info.id@ != s[j].info.id@
    &&& forall|i: int| 0 <= i < s.len() ==> (#[trigger] s[i]).wf()
}

/// The peer registry. Its view is the sequence of registered peers in
/// insertion order.
pub struct P2PService {
    peers: Vec<Peer>,
}

impl View for P2PService {
    type V = Seq<Peer>;

    closed spec fn view(&self) -> Seq<Peer> {
        self.peers@
    }
}

impl P2PService {
    /// The registry invariant; established at creation, preserved by every
    /// method.
    pub open spec fn wf(self) -> bool {
        spec_peers_wf(self@)
    }

    /// An empty registry.
    pub fn new() -> (s: P2PService)
        ensures
            s.wf(),
            s@ == Seq::<Peer>::empty(),
    {
        P2PService { peers: Vec::new() }
    }

    /// How many peers are registered.
    pub fn len(&self) -> (n: usize)
        ensures
            n == self@.len(),
    {
        self.peers.len()
    }

    /// Whether a peer with this id is registered.
    pub fn contains(&self, id: &String) -> (r: bool)
        ensures
            r == spec_contains_id(self@, id@),
    {
        self.index_of(id).is_some()
    }

    /// Finds the position of the peer with this id.
    fn index_of(&self, id: &String) -> (r: Option<usize>)
        ensures
            r is Some ==> 0 <= r->0 < self@.len() && self@[r->0 as int].info.id@ == id@,
            r is None ==> !spec_contains_id(self@, id@),
            r is Some ==> spec_contains_id(self@, id@),
    {
        let n = self.peers.len();
        let mut i: usize = 0;
        while i < n
            invariant
                n == self@.len(),
                i <= n,
                forall|j: int| 0 <= j < i ==> (#[trigger] self@[j].info.id@) != id@,
            decreases n - i,
        {
            if self.peers[i].info.id.eq(id) {
                return Some(i);
            }
            i = i + 1;
        }
        None
    }

    /// Registers a freshly discovered peer, unless its id is already present:
    /// a duplicate `PeerFound` neither creates a second peer nor restarts the
    /// existing peer's negotiation. Returns whether the peer was added.
    pub fn on_peer_found(&mut self, info: PeerInfo) -> (added: bool)
        requires
            old(self).wf(),
            info.wf(),
        ensures
            final(self).wf(),
            added == !spec_contains_id(old(self)@, info.id@),
            added ==> final(self)@ == old(self)@.push(spec_fresh_peer(info)),
            !added ==> final(self)@ == old(self)@,
            spec_contains_id(final(self)@, info.id@),
    {
        if self.index_of(&info.id).is_some() {
            return false;
        }
        let role = info.polite;
        let ghost id_view = info.id@;
        let peer = Peer {
            info,
            state: ConnectionState::Disconnected,
            negotiator: Negotiator::new(role),
        };
        self.peers.push(peer);
        proof {
            assert(self@[self@.len() - 1].info.id@ == id_view);
        }
        true
    }

    /// Removes the peer with this id; removal of an absent id is a no-op,
    /// not an error. Returns whether a peer was removed.
    pub fn on_peer_lost(&mut self, id: &String) -> (removed: bool)
        requires
            old(self).wf(),
        ensures
            final(self).wf(),
            removed == spec_contains_id(old(self)@, id@),
            !removed ==> final(self)@ == old(self)@,
            removed ==> final(self)@ == old(self)@.remove(spec_index_of(old(self)@, id@)),
    {
        match self.index_of(id) {
            Some(i) => {
                proof {
                    assert(spec_index_of(self@, id@) == i);
                }
                self.peers.remove(i);
                true
            },
            Option::None => false,
        }
    }

    /// Applies one discovery event to the registry.
    pub fn apply(&mut self, event: Status) -> (changed: bool)
        requires
            old(self).wf(),
            event matches Status::PeerFound(info) ==> info.wf(),
        ensures
            final(self).wf(),
            event matches Status::PeerFound(info) ==> ({
                if !spec_contains_id(old(self)@, info.id@) {
                    final(self)@ == old(self)@.push(spec_fresh_peer(info)) && changed
                } else {
                    final(self)@ == old(self)@ && !changed
                }
            }),
            event matches Status::PeerLost { id } ==> ({
                if spec_contains_id(old(self)@, id@) {
                    final(self)@ == old(self)@.remove(spec_index_of(old(self)@, id@)) && changed
                } else {
                    final(self)@ == old(self)@ && !changed
                }
            }),
    {
        match event {
            Status::PeerFound(info) => self.on_peer_found(info),
            Status::PeerLost { id } => self.on_peer_lost(&id),
        }
    }

    /// Routes one negotiation event to the peer with this id, performs the
    /// state transition, and keeps the published connection state in step
    /// with the machine. Returns the action the runtime must perform, or
    /// nothing when the id is unknown (its negotiation was retired).
    pub fn handle_peer_event(&mut self, id: &String, event: NegotiationEvent) -> (r: Option<
        NegotiationAction,
    >)
        requires
            old(self).wf(),
        ensures
            final(self).wf(),
            r is None <==> !spec_contains_id(old(self)@, id@),
            r is None ==> final(self)@ == old(self)@,
            final(self)@.len() == old(self)@.len(),
            forall|j: int|
                0 <= j < old(self)@.len() ==> (#[trigger] final(self)@[j]).info == old(
                    self,
                )@[j].info,
            r is Some ==> spec_contains_id(final(self)@, id@),
            r is Some ==> ({
                let i = spec_index_of(old(self)@, id@);
                let (machine, action) = spec_step(old(self)@[i].negotiator, event);
                &&& r->0 == action
                &&& final(self)@ == old(self)@.update(
                    i,
                    (Peer { state: machine.state, negotiator: machine, ..old(self)@[i] }),
                )
            }),
    {
        let idx = match self.index_of(id) {
            Some(i) => i,
            Option::None => {
                return Option::None;
            },
        };
        proof {
            assert(spec_index_of(self@, id@) == idx);
        }
        let mut machine = self.peers[idx].negotiator;
        let action = machine.handle(event);
        self.peers[idx].negotiator = machine;
        self.peers[idx].state = machine.state;
        proof {
            assert(self@[idx as int].info.id@ == id@);
        }
        Some(action)
    }

    /// Records a failed transport call for this peer: it resets to
    /// `Disconnected` and the failure is reported, or nothing happens when
    /// the id is unknown.
    pub fn fail_peer(&mut self, id: &String, phase: NegotiationPhase) -> (r: Option<
        NegotiationError,
    >)
        requires
            old(self).wf(),
        ensures
            final(self).wf(),
            r is None <==> !spec_contains_id(old(self)@, id@),
            r is None ==> final(self)@ == old(self)@,
            r is Some ==> ({
                let i = spec_index_of(old(self)@, id@);
                &&& r->0.peer_id@ == id@
                &&& r->0.phase == phase
                &&& final(self)@.len() == old(self)@.len()
                &&& final(self)@[i].info == old(self)@[i].info
                &&& final(self)@[i].state is Disconnected
                &&& !final(self)@[i].negotiator.making_offer
                &&& final(self)@[i].negotiator.signaling is Stable
                &&& forall|j: int|
                    0 <= j < final(self)@.len() && j != i ==> final(self)@[j] == old(self)@[j]
            }),
    {
        let idx = match self.index_of(id) {
            Some(i) => i,
            Option::None => {
                return Option::None;
            },
        };
        proof {
            assert(spec_index_of(self@, id@) == idx);
        }
        let mut machine = self.peers[idx].negotiator;
        let err = machine.on_failure(id.clone(), phase);
        self.peers[idx].negotiator = machine;
        self.peers[idx].state = machine.state;
        Some(err)
    }

    /// Copies, in registration order, each peer's id, facts and current
    /// connection state; the live set itself is never handed out.
    pub fn snapshot(&self) -> (snap: Vec<(String, PeerInfo, ConnectionState)>)
        ensures
            snap@.len() == self@.len(),
            forall|i: int|
                0 <= i < snap@.len() ==> (#[trigger] snap@[i]).0@ == self@[i].info.id@
                    && snap@[i].1 == self@[i].info && snap@[i].2 == self@[i].state,
    {
        let n = self.peers.len();
        let mut snap: Vec<(String, PeerInfo, ConnectionState)> = Vec::new();
        let mut i: usize = 0;
        while i < n
            invariant
                n == self@.len(),
                i <= n,
                snap@.len() == i,
                forall|j: int|
                    0 <= j < i ==> (#[trigger] snap@[j]).0@ == self@[j].info.id@
                        && snap@[j].1 == self@[j].info && snap@[j].2 == self@[j].state,
            decreases n - i,
        {
            let p = &self.peers[i];
            let info = PeerInfo {
                id: p.info.id.clone(),
                our_id: p.info.our_id.clone(),
                address: p.info.address.clone(),
                mobile: p.info.mobile,
                polite: p.info.polite,
            };
            let id = p.info.id.clone();
            snap.push((id, info, p.state));
            i = i + 1;
        }
        snap
    }
}

} // verus!
