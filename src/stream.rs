//! The driver: the single owner of the transport's state. It takes one
//! occurrence at a time (a discovery result, a command, a transport event),
//! decides what the application sees and what the transport and discovery
//! must do, and keeps the events that one occurrence yields in order.
use vstd::prelude::*;

use std::collections::VecDeque;

use crate::address::{socket_of, to_socket, to_transport, transport_of, SocketAddress, TransportAddress};
use crate::event::{Event, ManagerStreamAction, PeerId};

verus! {

/// An event of the transport.
pub enum TransportEvent<M, P, G, S> {
    /// A command that the protocol layer hands to the driver.
    Behaviour(ManagerStreamAction<M, P, G, S>),
    ConnectionEstablished { peer_id: PeerId },
    /// A connection closed; `num_established` connections to the peer remain.
    ConnectionClosed { peer_id: PeerId, num_established: u32 },
    IncomingConnection,
    IncomingConnectionError,
    /// A dial failed, or could not be started.
    OutgoingConnectionError { peer_id: Option<PeerId> },
    BannedPeer { peer_id: PeerId },
    NewListenAddr(TransportAddress),
    ExpiredListenAddr(TransportAddress),
    /// A listener closed, and with it all the addresses it was bound to.
    ListenerClosed(Vec<TransportAddress>),
    ListenerError,
    Dialing(PeerId),
}

/// What the driver was woken by: whichever of its three sources was ready
/// first.
pub enum Occurrence<M, P, G, S> {
    /// A discovery cycle completed, with or without an event.
    Discovery(Option<Event<M, P>>),
    /// The command channel gave a command, or `None` once every sender is gone.
    Received(Option<ManagerStreamAction<M, P, G, S>>),
    Transport(TransportEvent<M, P, G, S>),
}

/// Work for the transport or for discovery, to be done in the order given.
pub enum Command<G, S> {
    /// Dial the peer at these addresses. Where the transport refuses to start
    /// the dial, `OutgoingConnectionError` for the peer is to be handed back.
    Dial { peer_id: PeerId, addresses: Vec<TransportAddress> },
    /// Send the connected peers to the responder.
    AnswerConnectedPeers { responder: G, peers: Vec<PeerId> },
    /// Ask the peer's handler to open a unicast stream for the responder.
    OpenUnicast { peer_id: PeerId, responder: S },
    /// Ask the peer's handler to send the data.
    SendBroadcast { peer_id: PeerId, data: Vec<u8> },
    /// Advertise a listen address through discovery.
    RegisterAddr(SocketAddress),
    /// Stop advertising a listen address.
    UnregisterAddr(SocketAddress),
}

/// What the application is to do next.
pub enum Next<M, P> {
    /// Hand this event to the application.
    Ready(Event<M, P>),
    /// Wait for the next occurrence and hand it to `handle`.
    Poll,
    /// The driver has shut down: stop polling.
    Finished,
}

/// What one occurrence yields: an event for the application, if any, and
/// the commands to carry out before it is handed on.
pub struct Outcome<M, P, G, S> {
    pub event: Option<Event<M, P>>,
    pub commands: Vec<Command<G, S>>,
}

/// The driver's state.
pub struct ManagerStream<M, P> {
    /// Events that are due before any source is consulted again.
    pub queued_events: VecDeque<Event<M, P>>,
    /// Peers with at least one open connection.
    pub connected: Vec<PeerId>,
    /// Peers with a dial under way.
    pub dialing: Vec<PeerId>,
    /// Whether every command sender is gone.
    pub closed: bool,
}

/// The driver's state as values.
pub struct StreamView<M, P> {
    pub queued: Seq<Event<M, P>>,
    pub connected: Seq<PeerId>,
    pub dialing: Seq<PeerId>,
    pub closed: bool,
}

impl<M, P> View for ManagerStream<M, P> {
    type V = StreamView<M, P>;

    open spec fn view(&self) -> StreamView<M, P> {
        StreamView {
            queued: self.queued_events@,
            connected: self.connected@,
            dialing: self.dialing@,
            closed: self.closed,
        }
    }
}

/// `s` with `p` added, where it is not in `s` already.
pub open spec fn with_peer(s: Seq<PeerId>, p: PeerId) -> Seq<PeerId> {
    if s.contains(p) {
        s
    } else {
        s.push(p)
    }
}

/// `s` without `p`.
pub open spec fn without_peer(s: Seq<PeerId>, p: PeerId) -> Seq<PeerId> {
    if s.contains(p) {
        s.remove(s.index_of(p))
    } else {
        s
    }
}

/// The socket addresses of those transport addresses that have one, in order.
pub open spec fn socket_addresses(ts: Seq<TransportAddress>) -> Seq<SocketAddress>
    decreases ts.len(),
{
    if ts.len() == 0 {
        Seq::empty()
    } else {
        let rest = socket_addresses(ts.drop_last());
        match socket_of(ts.last()@) {
            Some(a) => rest.push(a),
            None => rest,
        }
    }
}

pub open spec fn removal_event<M, P>(a: SocketAddress) -> Event<M, P> {
    Event::RemoveListenAddr(a)
}

pub open spec fn unregister_command<G, S>(a: SocketAddress) -> Command<G, S> {
    Command::UnregisterAddr(a)
}

/// `s` with its oldest queued event taken.
pub open spec fn popped<M, P>(s: StreamView<M, P>) -> StreamView<M, P> {
    StreamView { queued: s.queued.drop_first(), ..s }
}

/// What `next` answers in state `s`, and the state it leaves.
pub open spec fn next_of<M, P>(s: StreamView<M, P>) -> (Next<M, P>, StreamView<M, P>) {
    if s.queued.len() > 0 {
        (Next::Ready(s.queued[0]), popped(s))
    } else if s.closed {
        (Next::Finished, s)
    } else {
        (Next::Poll, s)
    }
}

/// `out` yields no event and no command.
pub open spec fn quiet<M, P, G, S>(out: Outcome<M, P, G, S>) -> bool {
    out.event is None && out.commands@.len() == 0
}

/// Whether `c` asks to dial `p`.
pub open spec fn dials<G, S>(c: Command<G, S>, p: PeerId) -> bool {
    match c {
        Command::Dial { peer_id, addresses } => peer_id == p,
        _ => false,
    }
}

/// Whether `c` asks to send `data` to `p`.
pub open spec fn broadcasts_to<G, S>(c: Command<G, S>, p: PeerId, data: Seq<u8>) -> bool {
    match c {
        Command::SendBroadcast { peer_id, data: d } => peer_id == p && d@ == data,
        _ => false,
    }
}

/// Carrying out command `action` takes the driver from `s` to `t` with
/// outcome `out`.
pub open spec fn dispatched<M, P, G, S>(
    s: StreamView<M, P>,
    action: ManagerStreamAction<M, P, G, S>,
    t: StreamView<M, P>,
    out: Outcome<M, P, G, S>,
) -> bool {
    match action {
        ManagerStreamAction::Event(e) => t == s && out.event == Some(e) && out.commands@.len()
            == 0,
        ManagerStreamAction::GetConnectedPeers(g) => {
            &&& t == s
            &&& out.event is None
            &&& out.commands@.len() == 1
            &&& match out.commands@[0] {
                Command::AnswerConnectedPeers { responder, peers } => responder == g && peers@
                    == s.connected,
                _ => false,
            }
        },
        ManagerStreamAction::Dial { peer_id, addresses } => {
            if s.connected.contains(peer_id) || s.dialing.contains(peer_id) {
                t == s && quiet(out)
            } else {
                &&& t == StreamView { dialing: s.dialing.push(peer_id), ..s }
                &&& out.event is None
                &&& out.commands@.len() == 1
                &&& match out.commands@[0] {
                    Command::Dial { peer_id: p, addresses: ts } => {
                        &&& p == peer_id
                        &&& ts@.len() == addresses@.len()
                        &&& forall|i: int|
                            0 <= i < ts@.len() ==> ts@[i]@ == transport_of(addresses@[i])
                    },
                    _ => false,
                }
            }
        },
        ManagerStreamAction::StartStream(peer_id, responder) => {
            &&& t == s
            &&& out.event is None
            &&& out.commands@ == seq![Command::<G, S>::OpenUnicast { peer_id, responder }]
        },
        ManagerStreamAction::BroadcastData(data) => {
            &&& t == s
            &&& out.event is None
            &&& out.commands@.len() == s.connected.len()
            &&& forall|i: int|
                0 <= i < s.connected.len() ==> broadcasts_to(
                    #[trigger] out.commands@[i],
                    s.connected[i],
                    data@,
                )
        },
    }
}

/// Handling transport event `ev` takes the driver from `s` to `t` with
/// outcome `out`.
pub open spec fn transported<M, P, G, S>(
    s: StreamView<M, P>,
    ev: TransportEvent<M, P, G, S>,
    t: StreamView<M, P>,
    out: Outcome<M, P, G, S>,
) -> bool {
    match ev {
        TransportEvent::Behaviour(action) => dispatched(s, action, t, out),
        TransportEvent::ConnectionEstablished { peer_id } => {
            &&& t == StreamView {
                connected: with_peer(s.connected, peer_id),
                dialing: without_peer(s.dialing, peer_id),
                ..s
            }
            &&& quiet(out)
        },
        TransportEvent::ConnectionClosed { peer_id, num_established } => {
            &&& t == (if num_established == 0 {
                StreamView { connected: without_peer(s.connected, peer_id), ..s }
            } else {
                s
            })
            &&& quiet(out)
        },
        TransportEvent::OutgoingConnectionError { peer_id } => {
            &&& t == (match peer_id {
                Some(p) => StreamView { dialing: without_peer(s.dialing, p), ..s },
                None => s,
            })
            &&& quiet(out)
        },
        TransportEvent::NewListenAddr(ta) => {
            &&& t == s
            &&& match socket_of(ta@) {
                Some(a) => out.event == Some(Event::<M, P>::AddListenAddr(a)) && out.commands@
                    == seq![Command::<G, S>::RegisterAddr(a)],
                None => quiet(out),
            }
        },
        TransportEvent::ExpiredListenAddr(ta) => {
            &&& t == s
            &&& match socket_of(ta@) {
                Some(a) => out.event == Some(Event::<M, P>::RemoveListenAddr(a)) && out.commands@
                    == seq![Command::<G, S>::UnregisterAddr(a)],
                None => quiet(out),
            }
        },
        TransportEvent::ListenerClosed(tas) => {
            let addrs = socket_addresses(tas@);
            &&& t == StreamView {
                queued: s.queued + addrs.map_values(|a: SocketAddress| removal_event::<M, P>(a)),
                ..s
            }
            &&& out.event is None
            &&& out.commands@ == addrs.map_values(|a: SocketAddress| unregister_command::<G, S>(a))
        },
        _ => t == s && quiet(out),
    }
}

/// Handling occurrence `occ` takes the driver from `s` to `t` with outcome
/// `out`. Once closed, the driver ignores everything.
pub open spec fn handled<M, P, G, S>(
    s: StreamView<M, P>,
    occ: Occurrence<M, P, G, S>,
    t: StreamView<M, P>,
    out: Outcome<M, P, G, S>,
) -> bool {
    if s.closed {
        t == s && quiet(out)
    } else {
        match occ {
            Occurrence::Discovery(e) => t == s && out.event == e && out.commands@.len() == 0,
            Occurrence::Received(None) => t == StreamView { closed: true, ..s } && quiet(out),
            Occurrence::Received(Some(action)) => dispatched(s, action, t, out),
            Occurrence::Transport(ev) => transported(s, ev, t, out),
        }
    }
}

/// Finds `p` in `v`.
fn find_peer(v: &Vec<PeerId>, p: PeerId) -> (r: Option<usize>)
    ensures
        match r {
            Some(i) => i < v@.len() && v@[i as int] == p,
            None => !v@.contains(p),
        },
{
    let mut i: usize = 0;
    while i < v.len()
        invariant
            i <= v@.len(),
            forall|j: int| 0 <= j < i ==> v@[j] != p,
        decreases v@.len() - i,
    {
        if v[i] == p {
            return Some(i);
        }
        i = i + 1;
    }
    None
}

/// Adds `p` to `v` where it is missing.
fn insert_peer(v: &mut Vec<PeerId>, p: PeerId)
    requires
        old(v)@.no_duplicates(),
    ensures
        final(v)@ == with_peer(old(v)@, p),
        final(v)@.no_duplicates(),
{
    if find_peer(v, p).is_none() {
        v.push(p);
    }
}

/// Takes `p` out of `v`.
fn remove_peer(v: &mut Vec<PeerId>, p: PeerId)
    requires
        old(v)@.no_duplicates(),
    ensures
        final(v)@ == without_peer(old(v)@, p),
        final(v)@.no_duplicates(),
{
    match find_peer(v, p) {
        Some(i) => {
            let ghost s = v@;
            assert(s.contains(p));
            let ghost j = s.index_of(p);
            assert(s[j] == p);
            assert(j == i);
            v.remove(i);
            assert forall|a: int, b: int|
                0 <= a < v@.len() && 0 <= b < v@.len() && a != b implies v@[a] != v@[b] by {
                let a2 = if a < i { a } else { a + 1 };
                let b2 = if b < i { b } else { b + 1 };
                assert(v@[a] == s[a2] && v@[b] == s[b2]);
            }
        },
        None => {},
    }
}


/// The transport addresses of `addresses`, in order.
fn transport_addresses(addresses: &Vec<SocketAddress>) -> (r: Vec<TransportAddress>)
    ensures
        r@.len() == addresses@.len(),
        forall|i: int| 0 <= i < r@.len() ==> r@[i]@ == transport_of(addresses@[i]),
{
    let mut r: Vec<TransportAddress> = Vec::new();
    let mut i: usize = 0;
    while i < addresses.len()
        invariant
            i <= addresses@.len(),
            r@.len() == i,
            forall|j: int| 0 <= j < i ==> r@[j]@ == transport_of(addresses@[j]),
        decreases addresses@.len() - i,
    {
        r.push(to_transport(&addresses[i]));
        i = i + 1;
    }
    r
}

impl<M, P> ManagerStream<M, P> {
    /// The state's invariant: no peer is listed twice.
    pub open spec fn wf(&self) -> bool {
        self.connected@.no_duplicates() && self.dialing@.no_duplicates()
    }

    /// A driver with no connections, nothing queued, and its channel open.
    pub fn new() -> (r: Self)
        ensures
            r.wf(),
            r@.queued == Seq::<Event<M, P>>::empty(),
            r@.connected == Seq::<PeerId>::empty(),
            r@.dialing == Seq::<PeerId>::empty(),
            !r@.closed,
    {
        ManagerStream {
            queued_events: VecDeque::new(),
            connected: Vec::new(),
            dialing: Vec::new(),
            closed: false,
        }
    }

    /// What the application is to do next: take the oldest queued event if
    /// there is one, else stop once the driver has shut down, else poll.
    pub fn next(&mut self) -> (r: Next<M, P>)
        ensures
            (r, final(self)@) == next_of(old(self)@),
            final(self).connected == old(self).connected,
            final(self).dialing == old(self).dialing,
    {
        match self.queued_events.pop_front() {
            Some(event) => {
                proof {
                    assert(self@.queued =~= old(self)@.queued.drop_first());
                }
                Next::Ready(event)
            },
            None => {
                if self.closed {
                    Next::Finished
                } else {
                    Next::Poll
                }
            },
        }
    }

    /// Carries out a command, from the application or from the protocol
    /// layer.
    pub fn handle_manager_stream_action<G, S>(
        &mut self,
        action: ManagerStreamAction<M, P, G, S>,
    ) -> (r: Outcome<M, P, G, S>)
        requires
            old(self).wf(),
        ensures
            final(self).wf(),
            dispatched(old(self)@, action, final(self)@, r),
    {
        match action {
            ManagerStreamAction::Event(event) => Outcome { event: Some(event), commands: Vec::new() },
            ManagerStreamAction::GetConnectedPeers(responder) => {
                let peers = self.connected.clone();
                proof {
                    assert(peers@ =~= self.connected@);
                }
                let mut commands: Vec<Command<G, S>> = Vec::new();
                commands.push(Command::AnswerConnectedPeers { responder, peers });
                Outcome { event: None, commands }
            },
            ManagerStreamAction::Dial { peer_id, addresses } => {
                let mut commands: Vec<Command<G, S>> = Vec::new();
                if find_peer(&self.connected, peer_id).is_none() && find_peer(
                    &self.dialing,
                    peer_id,
                ).is_none() {
                    let transport = transport_addresses(&addresses);
                    self.dialing.push(peer_id);
                    commands.push(Command::Dial { peer_id, addresses: transport });
                }
                Outcome { event: None, commands }
            },
            ManagerStreamAction::StartStream(peer_id, responder) => {
                let mut commands: Vec<Command<G, S>> = Vec::new();
                commands.push(Command::OpenUnicast { peer_id, responder });
                proof {
                    assert(commands@ =~= seq![Command::<G, S>::OpenUnicast { peer_id, responder }]);
                }
                Outcome { event: None, commands }
            },
            ManagerStreamAction::BroadcastData(data) => {
                let mut commands: Vec<Command<G, S>> = Vec::new();
                let mut i: usize = 0;
                while i < self.connected.len()
                    invariant
                        i <= self.connected@.len(),
                        commands@.len() == i,
                        forall|j: int|
                            0 <= j < i ==> broadcasts_to(
                                #[trigger] commands@[j],
                                self.connected@[j],
                                data@,
                            ),
                    decreases self.connected@.len() - i,
                {
                    let copy = data.clone();
                    proof {
                        assert(copy@ =~= data@);
                    }
                    commands.push(Command::SendBroadcast { peer_id: self.connected[i], data: copy });
                    i = i + 1;
                }
                Outcome { event: None, commands }
            },
        }
    }

    /// Takes the addresses of a closed listener: queues one removal event
    /// for each address that has a socket address, in order, and asks
    /// discovery to stop advertising it.
    fn close_listener<G, S>(&mut self, addresses: &Vec<TransportAddress>) -> (r: Vec<Command<G, S>>)
        ensures
            final(self)@ == (StreamView {
                queued: old(self)@.queued + socket_addresses(addresses@).map_values(
                    |a: SocketAddress| removal_event::<M, P>(a),
                ),
                ..old(self)@
            }),
            r@ == socket_addresses(addresses@).map_values(|a: SocketAddress| unregister_command::<G, S>(a)),
    {
        let mut commands: Vec<Command<G, S>> = Vec::new();
        let mut i: usize = 0;
        while i < addresses.len()
            invariant
                i <= addresses@.len(),
                self@ == (StreamView {
                    queued: old(self)@.queued + socket_addresses(addresses@.subrange(0, i as int)).map_values(
                        |a: SocketAddress| removal_event::<M, P>(a),
                    ),
                    ..old(self)@
                }),
                commands@ == socket_addresses(addresses@.subrange(0, i as int)).map_values(
                    |a: SocketAddress| unregister_command::<G, S>(a),
                ),
            decreases addresses@.len() - i,
        {
            let ghost before = addresses@.subrange(0, i as int);
            let ghost after = addresses@.subrange(0, i + 1);
            assert(after.drop_last() =~= before);
            assert(after.last() == addresses@[i as int]);
            match to_socket(&addresses[i]) {
                Ok(a) => {
                    self.queued_events.push_back(Event::RemoveListenAddr(a));
                    commands.push(Command::UnregisterAddr(a));
                    assert(commands@ =~= socket_addresses(after).map_values(
                        |a: SocketAddress| unregister_command::<G, S>(a),
                    ));
                    assert(self@.queued =~= old(self)@.queued + socket_addresses(after).map_values(
                        |a: SocketAddress| removal_event::<M, P>(a),
                    ));
                },
                Err(_) => {},
            }
            i = i + 1;
        }
        assert(addresses@.subrange(0, addresses@.len() as int) =~= addresses@);
        commands
    }

    /// Takes one transport event.
    fn handle_transport_event<G, S>(&mut self, event: TransportEvent<M, P, G, S>) -> (r: Outcome<
        M,
        P,
        G,
        S,
    >)
        requires
            old(self).wf(),
        ensures
            final(self).wf(),
            transported(old(self)@, event, final(self)@, r),
    {
        match event {
            TransportEvent::Behaviour(action) => self.handle_manager_stream_action(action),
            TransportEvent::ConnectionEstablished { peer_id } => {
                insert_peer(&mut self.connected, peer_id);
                remove_peer(&mut self.dialing, peer_id);
                Outcome { event: None, commands: Vec::new() }
            },
            TransportEvent::ConnectionClosed { peer_id, num_established } => {
                if num_established == 0 {
                    remove_peer(&mut self.connected, peer_id);
                }
                Outcome { event: None, commands: Vec::new() }
            },
            TransportEvent::OutgoingConnectionError { peer_id } => {
                match peer_id {
                    Some(p) => remove_peer(&mut self.dialing, p),
                    None => {},
                }
                Outcome { event: None, commands: Vec::new() }
            },
            TransportEvent::NewListenAddr(address) => {
                match to_socket(&address) {
                    Ok(a) => {
                        let mut commands: Vec<Command<G, S>> = Vec::new();
                        commands.push(Command::RegisterAddr(a));
                        assert(commands@ =~= seq![Command::<G, S>::RegisterAddr(a)]);
                        Outcome { event: Some(Event::AddListenAddr(a)), commands }
                    },
                    Err(_) => Outcome { event: None, commands: Vec::new() },
                }
            },
            TransportEvent::ExpiredListenAddr(address) => {
                match to_socket(&address) {
                    Ok(a) => {
                        let mut commands: Vec<Command<G, S>> = Vec::new();
                        commands.push(Command::UnregisterAddr(a));
                        assert(commands@ =~= seq![Command::<G, S>::UnregisterAddr(a)]);
                        Outcome { event: Some(Event::RemoveListenAddr(a)), commands }
                    },
                    Err(_) => Outcome { event: None, commands: Vec::new() },
                }
            },
            TransportEvent::ListenerClosed(addresses) => {
                let commands = self.close_listener(&addresses);
                Outcome { event: None, commands }
            },
            _ => Outcome { event: None, commands: Vec::new() },
        }
    }

    /// Takes one occurrence: decides the event it yields for the
    /// application, if any, queues what must follow it, and lists the work
    /// for the transport and for discovery. Once every command sender is
    /// gone the driver is closed for good and ignores what comes.
    pub fn handle<G, S>(&mut self, occurrence: Occurrence<M, P, G, S>) -> (r: Outcome<M, P, G, S>)
        requires
            old(self).wf(),
        ensures
            final(self).wf(),
            handled(old(self)@, occurrence, final(self)@, r),
    {
        if self.closed {
            return Outcome { event: None, commands: Vec::new() };
        }
        match occurrence {
            Occurrence::Discovery(event) => Outcome { event, commands: Vec::new() },
            Occurrence::Received(None) => {
                self.closed = true;
                Outcome { event: None, commands: Vec::new() }
            },
            Occurrence::Received(Some(action)) => self.handle_manager_stream_action(action),
            Occurrence::Transport(event) => self.handle_transport_event(event),
        }
    }
}

} // verus!
