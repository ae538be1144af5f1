//! Application-visible events, the commands that drive the manager, and the
//! replay a new subscriber sees before the live events.
use vstd::prelude::*;

use crate::address::SocketAddress;

verus! {

/// Identifies a peer. Equal identifiers name the same peer.
#[derive(Clone, Copy, Debug, PartialEq, Eq, Structural, Hash)]
pub struct PeerId(pub u64);

/// What the application sees of the network. `M` is the metadata that peers
/// advertise, `P` the events of the transport's protocol layer.
#[derive(Clone, Debug)]
pub enum Event<M, P> {
    PeerDiscovered { peer_id: PeerId, metadata: M },
    AddListenAddr(SocketAddress),
    RemoveListenAddr(SocketAddress),
    /// An event of the protocol layer, passed on unchanged.
    Protocol(P),
}

/// A peer that discovery currently knows of.
#[derive(Clone, Debug)]
pub struct DiscoveredPeer<M> {
    pub peer_id: PeerId,
    pub metadata: M,
    pub addresses: Vec<SocketAddress>,
}

/// A command for the driver. `G` answers a request for the connected peers,
/// `S` receives the stream that a unicast request opens.
pub enum ManagerStreamAction<M, P, G, S> {
    /// An event to hand to the application as it is.
    Event(Event<M, P>),
    /// Answer with the peers connected when the command is processed.
    GetConnectedPeers(G),
    /// Connect to a peer at one of the addresses, unless it is connected or
    /// being dialed already.
    Dial { peer_id: PeerId, addresses: Vec<SocketAddress> },
    /// Open a unicast stream to a peer and hand it to the responder.
    StartStream(PeerId, S),
    /// Send the data to every peer connected when the command is processed.
    BroadcastData(Vec<u8>),
}

impl<M, P, G, S> From<Event<M, P>> for ManagerStreamAction<M, P, G, S> {
    /// Wraps an event so that it travels the same path as other commands.
    fn from(event: Event<M, P>) -> (r: Self) {
        ManagerStreamAction::Event(event)
    }
}

impl<M, P, G, S> vstd::std_specs::convert::FromSpecImpl<Event<M, P>> for ManagerStreamAction<M, P, G, S> {
    open spec fn obeys_from_spec() -> bool {
        true
    }

    open spec fn from_spec(event: Event<M, P>) -> Self {
        ManagerStreamAction::Event(event)
    }
}

/// Why a request to the manager got no answer.
#[derive(Clone, Copy, Debug, PartialEq, Eq, Structural)]
pub enum ManagerError {
    /// The driver has shut down.
    Closed,
}

/// The event that announces a discovered peer.
pub open spec fn discovered_event<M, P>(peer: DiscoveredPeer<M>) -> Event<M, P> {
    Event::PeerDiscovered { peer_id: peer.peer_id, metadata: peer.metadata }
}

/// The events a new subscriber sees first: one `PeerDiscovered` for each peer
/// that discovery knows of, in the order given.
pub fn replay_events<M, P>(peers: Vec<DiscoveredPeer<M>>) -> (r: Vec<Event<M, P>>)
    ensures
        r@ == peers@.map_values(|peer: DiscoveredPeer<M>| discovered_event::<M, P>(peer)),
{
    let mut rest = peers;
    let mut backwards: Vec<Event<M, P>> = Vec::new();
    while rest.len() > 0
        invariant
            rest@.len() + backwards@.len() == peers@.len(),
            rest@ == peers@.subrange(0, rest@.len() as int),
            forall|i: int|
                0 <= i < backwards@.len() ==> backwards@[i] == discovered_event::<M, P>(
                    peers@[peers@.len() - 1 - i],
                ),
        decreases rest@.len(),
    {
        let peer = rest.pop().unwrap();
        backwards.push(Event::PeerDiscovered { peer_id: peer.peer_id, metadata: peer.metadata });
    }
    let mut r: Vec<Event<M, P>> = Vec::new();
    while backwards.len() > 0
        invariant
            r@.len() + backwards@.len() == peers@.len(),
            forall|i: int|
                0 <= i < backwards@.len() ==> backwards@[i] == discovered_event::<M, P>(
                    peers@[peers@.len() - 1 - i],
                ),
            forall|i: int| 0 <= i < r@.len() ==> r@[i] == discovered_event::<M, P>(peers@[i]),
        decreases backwards@.len(),
    {
        let event = backwards.pop().unwrap();
        r.push(event);
    }
    assert(r@ =~= peers@.map_values(|peer: DiscoveredPeer<M>| discovered_event::<M, P>(peer)));
    r
}

} // verus!
