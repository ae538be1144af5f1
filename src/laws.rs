//! What holds of the driver over several steps.
use vstd::prelude::*;

use crate::address::{SocketAddress, TransportAddress};
use crate::event::{Event, ManagerStreamAction, PeerId};
use crate::stream::{
    broadcasts_to, dials, handled, next_of, quiet, removal_event, socket_addresses, Next, Occurrence,
    Outcome, StreamView, TransportEvent,
};

verus! {

/// The events that `k` calls of `next` hand out from state `s`, stopping
/// at the first call that hands out none.
pub open spec fn drained<M, P>(s: StreamView<M, P>, k: nat) -> Seq<Event<M, P>>
    decreases k,
{
    if k == 0 {
        Seq::empty()
    } else {
        match next_of(s).0 {
            Next::Ready(e) => seq![e] + drained(next_of(s).1, (k - 1) as nat),
            _ => Seq::empty(),
        }
    }
}

/// The state after `k` calls of `next` from state `s`.
pub open spec fn after_draining<M, P>(s: StreamView<M, P>, k: nat) -> StreamView<M, P>
    decreases k,
{
    if k == 0 {
        s
    } else {
        after_draining(next_of(s).1, (k - 1) as nat)
    }
}

/// Draining a state hands out its queued events, oldest first, and leaves
/// the queue empty.
pub proof fn lemma_drain_in_order<M, P>(s: StreamView<M, P>)
    ensures
        drained(s, s.queued.len()) == s.queued,
        after_draining(s, s.queued.len()).queued.len() == 0,
        after_draining(s, s.queued.len()).closed == s.closed,
    decreases s.queued.len(),
{
    if s.queued.len() > 0 {
        let t = next_of(s).1;
        assert(t.queued.len() == s.queued.len() - 1);
        lemma_drain_in_order(t);
        assert(s.queued =~= seq![s.queued[0]] + t.queued);
    }
}

/// When a listener closes, the driver hands out one `RemoveListenAddr` for
/// each of its addresses that has a socket address, in the listener's
/// order, through the next calls of `next`, before anything else; each of
/// them carries the address that `NewListenAddr` of the same transport
/// address announced.
pub proof fn lemma_listener_closed_in_order<M, P, G, S>(
    s: StreamView<M, P>,
    addresses: Vec<TransportAddress>,
    t: StreamView<M, P>,
    out: Outcome<M, P, G, S>,
)
    requires
        !s.closed,
        s.queued.len() == 0,
        handled(s, Occurrence::Transport(TransportEvent::ListenerClosed(addresses)), t, out),
    ensures
        out.event is None,
        drained(t, t.queued.len()) == socket_addresses(addresses@).map_values(
            |a: SocketAddress| removal_event::<M, P>(a),
        ),
        after_draining(t, t.queued.len()).queued.len() == 0,
{
    assert(t.queued =~= socket_addresses(addresses@).map_values(
        |a: SocketAddress| removal_event::<M, P>(a),
    ));
    lemma_drain_in_order(t);
}

/// The address that a new listen address announces is the one its removal
/// announces later.
pub proof fn lemma_add_then_remove<M, P, G, S>(
    s: StreamView<M, P>,
    address: TransportAddress,
    t: StreamView<M, P>,
    out: Outcome<M, P, G, S>,
    s2: StreamView<M, P>,
    t2: StreamView<M, P>,
    out2: Outcome<M, P, G, S>,
    a: SocketAddress,
)
    requires
        !s.closed,
        handled(s, Occurrence::Transport(TransportEvent::NewListenAddr(address)), t, out),
        out.event == Some(Event::<M, P>::AddListenAddr(a)),
        !s2.closed,
        handled(s2, Occurrence::Transport(TransportEvent::ExpiredListenAddr(address)), t2, out2),
    ensures
        out2.event == Some(Event::<M, P>::RemoveListenAddr(a)),
{
}

/// Dialing a connected peer changes nothing and asks the transport for
/// nothing.
pub proof fn lemma_dial_connected_is_noop<M, P, G, S>(
    s: StreamView<M, P>,
    peer_id: PeerId,
    addresses: Vec<SocketAddress>,
    t: StreamView<M, P>,
    out: Outcome<M, P, G, S>,
)
    requires
        s.connected.contains(peer_id),
        handled(
            s,
            Occurrence::Received(Some(ManagerStreamAction::Dial { peer_id, addresses })),
            t,
            out,
        ),
    ensures
        t == s,
        quiet(out),
{
}

/// Two dials of one peer in a row ask the transport for at most one dial,
/// and only of that peer.
pub proof fn lemma_no_duplicate_dial<M, P, G, S>(
    s: StreamView<M, P>,
    peer_id: PeerId,
    first: Vec<SocketAddress>,
    second: Vec<SocketAddress>,
    t1: StreamView<M, P>,
    out1: Outcome<M, P, G, S>,
    t2: StreamView<M, P>,
    out2: Outcome<M, P, G, S>,
)
    requires
        handled(
            s,
            Occurrence::Received(Some(ManagerStreamAction::Dial { peer_id, addresses: first })),
            t1,
            out1,
        ),
        handled(
            t1,
            Occurrence::Received(Some(ManagerStreamAction::Dial { peer_id, addresses: second })),
            t2,
            out2,
        ),
    ensures
        out1.commands@.len() + out2.commands@.len() <= 1,
        forall|i: int| 0 <= i < out1.commands@.len() ==> dials(#[trigger] out1.commands@[i], peer_id),
        forall|i: int| 0 <= i < out2.commands@.len() ==> dials(#[trigger] out2.commands@[i], peer_id),
{
    if !s.closed && !(s.connected.contains(peer_id) || s.dialing.contains(peer_id)) {
        assert(t1.dialing[t1.dialing.len() - 1] == peer_id);
    }
}

/// A broadcast asks for exactly one send to each peer connected when it is
/// processed, and for none to any other peer.
pub proof fn lemma_broadcast_once_per_peer<M, P, G, S>(
    s: StreamView<M, P>,
    data: Vec<u8>,
    t: StreamView<M, P>,
    out: Outcome<M, P, G, S>,
)
    requires
        !s.closed,
        s.connected.no_duplicates(),
        handled(s, Occurrence::Received(Some(ManagerStreamAction::BroadcastData(data))), t, out),
    ensures
        t == s,
        forall|p: PeerId|
            s.connected.contains(p) ==> exists|i: int|
                0 <= i < out.commands@.len() && broadcasts_to(out.commands@[i], p, data@),
        forall|i: int|
            #![trigger out.commands@[i]]
            0 <= i < out.commands@.len() ==> exists|p: PeerId|
                #[trigger] s.connected.contains(p) && broadcasts_to(out.commands@[i], p, data@),
        forall|i: int, j: int, p: PeerId|
            0 <= i < out.commands@.len() && 0 <= j < out.commands@.len() && #[trigger] broadcasts_to(
                out.commands@[i],
                p,
                data@,
            ) && #[trigger] broadcasts_to(out.commands@[j], p, data@) ==> i == j,
{
    assert forall|p: PeerId| s.connected.contains(p) implies exists|i: int|
        0 <= i < out.commands@.len() && broadcasts_to(out.commands@[i], p, data@) by {
        let i = choose|i: int| 0 <= i < s.connected.len() && s.connected[i] == p;
        assert(broadcasts_to(out.commands@[i], s.connected[i], data@));
    }
    assert forall|i: int| #![trigger out.commands@[i]] 0 <= i < out.commands@.len() implies exists|p: PeerId|
        #[trigger] s.connected.contains(p) && broadcasts_to(out.commands@[i], p, data@) by {
        assert(broadcasts_to(out.commands@[i], s.connected[i], data@));
        assert(s.connected.contains(s.connected[i]));
    }
    assert forall|i: int, j: int, p: PeerId|
        0 <= i < out.commands@.len() && 0 <= j < out.commands@.len() && #[trigger] broadcasts_to(
            out.commands@[i],
            p,
            data@,
        ) && #[trigger] broadcasts_to(out.commands@[j], p, data@) implies i == j by {
        assert(broadcasts_to(out.commands@[i], s.connected[i], data@));
        assert(broadcasts_to(out.commands@[j], s.connected[j], data@));
    }
}

/// Once the last command sender is gone, `next` answers `Finished` and no
/// occurrence brings the driver back.
pub proof fn lemma_closed_for_good<M, P, G, S>(
    s: StreamView<M, P>,
    t: StreamView<M, P>,
    out: Outcome<M, P, G, S>,
    occurrence: Occurrence<M, P, G, S>,
    t2: StreamView<M, P>,
    out2: Outcome<M, P, G, S>,
)
    requires
        s.queued.len() == 0,
        handled(s, Occurrence::Received(None), t, out),
        handled(t, occurrence, t2, out2),
    ensures
        next_of(t) == (Next::<M, P>::Finished, t),
        t2 == t,
        quiet(out2),
        next_of(t2) == (Next::<M, P>::Finished, t2),
{
}

} // verus!
