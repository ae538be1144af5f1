use sd_p2p::address::{to_socket, to_transport, AddressError, Component, IpAddress, SocketAddress, TransportAddress};
use sd_p2p::event::{replay_events, DiscoveredPeer, Event, ManagerStreamAction, PeerId};
use sd_p2p::stream::{Command, ManagerStream, Next, Occurrence, Outcome, TransportEvent};

type Stream = ManagerStream<String, u32>;
type Occ = Occurrence<String, u32, u8, u8>;

fn local(port: u16) -> SocketAddress {
    // 127.0.0.1
    SocketAddress { ip: IpAddress::V4(0x7f00_0001), port }
}

fn transport(components: Vec<Component>) -> TransportAddress {
    TransportAddress { components }
}

fn act(action: ManagerStreamAction<String, u32, u8, u8>) -> Occ {
    Occurrence::Received(Some(action))
}

fn swarm(event: TransportEvent<String, u32, u8, u8>) -> Occ {
    Occurrence::Transport(event)
}

fn connect(s: &mut Stream, peer: u64) {
    let out = s.handle(swarm(TransportEvent::ConnectionEstablished { peer_id: PeerId(peer) }));
    assert!(out.event.is_none());
    assert!(out.commands.is_empty());
}

fn dial_count(out: &Outcome<String, u32, u8, u8>, peer: u64) -> usize {
    out.commands
        .iter()
        .filter(|c| matches!(c, Command::Dial { peer_id, .. } if *peer_id == PeerId(peer)))
        .count()
}

#[test]
fn round_trip_v4() {
    let a = local(7373);
    let t = to_transport(&a);
    assert_eq!(t.components, vec![Component::Ip4(0x7f00_0001), Component::Udp(7373), Component::QuicV1]);
    assert_eq!(to_socket(&t), Ok(a));
}

#[test]
fn round_trip_v6() {
    let a = SocketAddress { ip: IpAddress::V6(1), port: 0 };
    let t = to_transport(&a);
    assert_eq!(t.components, vec![Component::Ip6(1), Component::Udp(0), Component::QuicV1]);
    assert_eq!(to_socket(&t), Ok(a));
}

#[test]
fn older_quic_marker_is_read() {
    let t = transport(vec![Component::Ip4(1), Component::Udp(80), Component::Quic]);
    assert_eq!(to_socket(&t), Ok(SocketAddress { ip: IpAddress::V4(1), port: 80 }));
}

#[test]
fn unsupported_addresses_are_refused() {
    let cases = vec![
        vec![Component::Ip4(1), Component::Tcp(80), Component::QuicV1],
        vec![Component::Ip4(1), Component::Udp(80)],
        vec![Component::Ip4(1), Component::Udp(80), Component::Other(460)],
        vec![Component::Other(53), Component::Udp(80), Component::QuicV1],
        vec![Component::Ip4(1), Component::Udp(80), Component::QuicV1, Component::Other(421)],
        vec![],
    ];
    for c in cases {
        assert_eq!(to_socket(&transport(c)), Err(AddressError::Unsupported));
    }
}

#[test]
fn new_driver_polls() {
    let mut s = Stream::new();
    assert!(matches!(s.next(), Next::Poll));
}

#[test]
fn listen_addresses_added_then_removed_in_order() {
    let mut s = Stream::new();
    let first = to_transport(&local(7373));
    let second = to_transport(&local(7374));
    let out = s.handle(swarm(TransportEvent::NewListenAddr(first.clone())));
    assert!(matches!(out.event, Some(Event::AddListenAddr(a)) if a == local(7373)));
    assert!(matches!(out.commands.as_slice(), [Command::RegisterAddr(a)] if *a == local(7373)));
    let out = s.handle(swarm(TransportEvent::NewListenAddr(second.clone())));
    assert!(matches!(out.event, Some(Event::AddListenAddr(a)) if a == local(7374)));

    let bad = transport(vec![Component::Ip4(1), Component::Tcp(1)]);
    let out = s.handle(swarm(TransportEvent::ListenerClosed(vec![first, bad, second])));
    assert!(out.event.is_none());
    assert_eq!(out.commands.len(), 2);
    assert!(matches!(out.commands[0], Command::UnregisterAddr(a) if a == local(7373)));
    assert!(matches!(out.commands[1], Command::UnregisterAddr(a) if a == local(7374)));

    assert!(matches!(s.next(), Next::Ready(Event::RemoveListenAddr(a)) if a == local(7373)));
    assert!(matches!(s.next(), Next::Ready(Event::RemoveListenAddr(a)) if a == local(7374)));
    assert!(matches!(s.next(), Next::Poll));
}

#[test]
fn unsupported_listen_address_is_dropped() {
    let mut s = Stream::new();
    let bad = transport(vec![Component::Ip4(1), Component::Tcp(1)]);
    let out = s.handle(swarm(TransportEvent::NewListenAddr(bad.clone())));
    assert!(out.event.is_none());
    assert!(out.commands.is_empty());
    let out = s.handle(swarm(TransportEvent::ExpiredListenAddr(bad)));
    assert!(out.event.is_none());
    assert!(out.commands.is_empty());
}

#[test]
fn expired_listen_address_is_removed() {
    let mut s = Stream::new();
    let out = s.handle(swarm(TransportEvent::ExpiredListenAddr(to_transport(&local(9)))));
    assert!(matches!(out.event, Some(Event::RemoveListenAddr(a)) if a == local(9)));
    assert!(matches!(out.commands.as_slice(), [Command::UnregisterAddr(a)] if *a == local(9)));
}

#[test]
fn dial_of_connected_peer_is_skipped() {
    let mut s = Stream::new();
    connect(&mut s, 5);
    let out = s.handle(act(ManagerStreamAction::Dial { peer_id: PeerId(5), addresses: vec![local(1)] }));
    assert!(out.event.is_none());
    assert!(out.commands.is_empty());
    assert_eq!(s.connected, vec![PeerId(5)]);
    assert!(s.dialing.is_empty());
}

#[test]
fn concurrent_dials_issue_one_attempt() {
    let mut s = Stream::new();
    let first = s.handle(act(ManagerStreamAction::Dial { peer_id: PeerId(7), addresses: vec![local(1)] }));
    let second = s.handle(act(ManagerStreamAction::Dial { peer_id: PeerId(7), addresses: vec![local(1)] }));
    assert_eq!(dial_count(&first, 7) + dial_count(&second, 7), 1);
    match &first.commands[0] {
        Command::Dial { peer_id, addresses } => {
            assert_eq!(*peer_id, PeerId(7));
            assert_eq!(addresses.len(), 1);
            assert_eq!(addresses[0].components, to_transport(&local(1)).components);
        }
        _ => panic!("expected a dial"),
    }
}

#[test]
fn failed_dial_can_be_retried() {
    let mut s = Stream::new();
    let out = s.handle(act(ManagerStreamAction::Dial { peer_id: PeerId(7), addresses: vec![] }));
    assert_eq!(dial_count(&out, 7), 1);
    s.handle(swarm(TransportEvent::OutgoingConnectionError { peer_id: Some(PeerId(7)) }));
    assert!(s.dialing.is_empty());
    let out = s.handle(act(ManagerStreamAction::Dial { peer_id: PeerId(7), addresses: vec![] }));
    assert_eq!(dial_count(&out, 7), 1);
}

#[test]
fn established_connection_ends_dial() {
    let mut s = Stream::new();
    s.handle(act(ManagerStreamAction::Dial { peer_id: PeerId(3), addresses: vec![local(2)] }));
    assert_eq!(s.dialing, vec![PeerId(3)]);
    connect(&mut s, 3);
    assert!(s.dialing.is_empty());
    assert_eq!(s.connected, vec![PeerId(3)]);
}

#[test]
fn broadcast_reaches_each_connected_peer_once() {
    let mut s = Stream::new();
    connect(&mut s, 1);
    connect(&mut s, 2);
    connect(&mut s, 1);
    let out = s.handle(act(ManagerStreamAction::BroadcastData(vec![9, 8])));
    connect(&mut s, 3);
    assert!(out.event.is_none());
    assert_eq!(out.commands.len(), 2);
    let mut peers = Vec::new();
    for c in &out.commands {
        match c {
            Command::SendBroadcast { peer_id, data } => {
                assert_eq!(*data, vec![9, 8]);
                peers.push(*peer_id);
            }
            _ => panic!("expected a send"),
        }
    }
    assert_eq!(peers, vec![PeerId(1), PeerId(2)]);
}

#[test]
fn closed_connection_leaves_peer_until_last() {
    let mut s = Stream::new();
    connect(&mut s, 4);
    s.handle(swarm(TransportEvent::ConnectionClosed { peer_id: PeerId(4), num_established: 1 }));
    assert_eq!(s.connected, vec![PeerId(4)]);
    s.handle(swarm(TransportEvent::ConnectionClosed { peer_id: PeerId(4), num_established: 0 }));
    assert!(s.connected.is_empty());
}

#[test]
fn connected_peers_are_answered() {
    let mut s = Stream::new();
    connect(&mut s, 2);
    connect(&mut s, 6);
    let out = s.handle(act(ManagerStreamAction::GetConnectedPeers(11)));
    assert!(out.event.is_none());
    match out.commands.as_slice() {
        [Command::AnswerConnectedPeers { responder, peers }] => {
            assert_eq!(*responder, 11);
            assert_eq!(*peers, vec![PeerId(2), PeerId(6)]);
        }
        _ => panic!("expected one answer"),
    }
}

#[test]
fn start_stream_asks_the_handler() {
    let mut s = Stream::new();
    let out = s.handle(act(ManagerStreamAction::StartStream(PeerId(8), 21)));
    assert!(out.event.is_none());
    assert!(matches!(out.commands.as_slice(), [Command::OpenUnicast { peer_id, responder }] if *peer_id == PeerId(8) && *responder == 21));
}

#[test]
fn behaviour_commands_take_the_same_path() {
    let mut s = Stream::new();
    let action = ManagerStreamAction::from(Event::Protocol(42));
    let out = s.handle(swarm(TransportEvent::Behaviour(action)));
    assert!(matches!(out.event, Some(Event::Protocol(42))));
    assert!(out.commands.is_empty());
}

#[test]
fn discovery_events_pass_through() {
    let mut s = Stream::new();
    let out = s.handle::<u8, u8>(Occurrence::Discovery(Some(Event::PeerDiscovered { peer_id: PeerId(1), metadata: "m".to_string() })));
    assert!(matches!(out.event, Some(Event::PeerDiscovered { peer_id, metadata }) if peer_id == PeerId(1) && metadata == "m"));
    let out = s.handle::<u8, u8>(Occurrence::Discovery(None));
    assert!(out.event.is_none());
}

#[test]
fn quiet_transport_events_yield_nothing() {
    let mut s = Stream::new();
    for ev in vec![
        TransportEvent::IncomingConnection,
        TransportEvent::IncomingConnectionError,
        TransportEvent::OutgoingConnectionError { peer_id: None },
        TransportEvent::BannedPeer { peer_id: PeerId(1) },
        TransportEvent::ListenerError,
        TransportEvent::Dialing(PeerId(1)),
    ] {
        let out = s.handle(swarm(ev));
        assert!(out.event.is_none());
        assert!(out.commands.is_empty());
    }
    assert!(matches!(s.next(), Next::Poll));
}

#[test]
fn closed_driver_stays_finished() {
    let mut s = Stream::new();
    connect(&mut s, 1);
    let out = s.handle::<u8, u8>(Occurrence::Received(None));
    assert!(out.event.is_none());
    assert!(matches!(s.next(), Next::Finished));
    let out = s.handle(act(ManagerStreamAction::BroadcastData(vec![1])));
    assert!(out.commands.is_empty());
    let out = s.handle::<u8, u8>(Occurrence::Discovery(Some(Event::Protocol(1))));
    assert!(out.event.is_none());
    assert!(matches!(s.next(), Next::Finished));
    assert!(matches!(s.next(), Next::Finished));
}

#[test]
fn late_subscriber_replays_discovered_peers() {
    let mut s = Stream::new();
    let out = s.handle(swarm(TransportEvent::NewListenAddr(to_transport(&local(7373)))));
    assert!(matches!(out.event, Some(Event::AddListenAddr(a)) if a == local(7373)));
    let out = s.handle::<u8, u8>(Occurrence::Discovery(Some(Event::PeerDiscovered { peer_id: PeerId(88), metadata: "M".to_string() })));
    assert!(out.event.is_some());

    let known = vec![DiscoveredPeer { peer_id: PeerId(88), metadata: "M".to_string(), addresses: vec![local(7000)] }];
    let replay: Vec<Event<String, u32>> = replay_events(known);
    assert_eq!(replay.len(), 1);
    assert!(matches!(&replay[0], Event::PeerDiscovered { peer_id, metadata } if *peer_id == PeerId(88) && metadata == "M"));
}

#[test]
fn replay_keeps_discovery_order() {
    let known = vec![
        DiscoveredPeer { peer_id: PeerId(3), metadata: "a".to_string(), addresses: vec![] },
        DiscoveredPeer { peer_id: PeerId(1), metadata: "b".to_string(), addresses: vec![] },
        DiscoveredPeer { peer_id: PeerId(2), metadata: "c".to_string(), addresses: vec![] },
    ];
    let replay: Vec<Event<String, u32>> = replay_events(known);
    let ids: Vec<u64> = replay
        .iter()
        .map(|e| match e {
            Event::PeerDiscovered { peer_id, .. } => peer_id.0,
            _ => panic!("expected a discovered peer"),
        })
        .collect();
    assert_eq!(ids, vec![3, 1, 2]);
    let empty: Vec<Event<String, u32>> = replay_events(Vec::<DiscoveredPeer<String>>::new());
    assert!(empty.is_empty());
}
