//! Conversion between socket addresses (IP and port) and the transport
//! addresses of the QUIC transport, written as a sequence of components.
use vstd::prelude::*;

verus! {

/// An IP address: four bytes in network order packed into a `u32`, or
/// sixteen bytes packed into a `u128`.
#[derive(Clone, Copy, Debug, PartialEq, Eq, Structural)]
pub enum IpAddress {
    V4(u32),
    V6(u128),
}

/// An IP address together with a port.
#[derive(Clone, Copy, Debug, PartialEq, Eq, Structural)]
pub struct SocketAddress {
    pub ip: IpAddress,
    pub port: u16,
}

/// One component of a transport address.
#[derive(Clone, Copy, Debug, PartialEq, Eq, Structural)]
pub enum Component {
    Ip4(u32),
    Ip6(u128),
    Udp(u16),
    Tcp(u16),
    QuicV1,
    Quic,
    /// Any component that this transport does not speak, by its protocol code.
    Other(u64),
}

/// A transport address: its components, outermost first.
#[derive(Clone, Debug)]
pub struct TransportAddress {
    pub components: Vec<Component>,
}

impl View for TransportAddress {
    type V = Seq<Component>;

    open spec fn view(&self) -> Seq<Component> {
        self.components@
    }
}

/// Why a transport address has no socket address.
#[derive(Clone, Copy, Debug, PartialEq, Eq, Structural)]
pub enum AddressError {
    /// The address is not an IP address, then a UDP port, then a QUIC marker.
    Unsupported,
}

/// The transport address that stands for `a`.
pub open spec fn transport_of(a: SocketAddress) -> Seq<Component> {
    let ip = match a.ip {
        IpAddress::V4(x) => Component::Ip4(x),
        IpAddress::V6(x) => Component::Ip6(x),
    };
    seq![ip, Component::Udp(a.port), Component::QuicV1]
}

/// Whether a component marks the QUIC protocol.
pub open spec fn is_quic_marker(c: Component) -> bool {
    c == Component::QuicV1 || c == Component::Quic
}

/// The socket address that `t` stands for, if it is exactly an IP address,
/// a UDP port and a QUIC marker.
pub open spec fn socket_of(t: Seq<Component>) -> Option<SocketAddress> {
    if t.len() == 3 && t[1] is Udp && is_quic_marker(t[2]) {
        match t[0] {
            Component::Ip4(x) => Some(SocketAddress { ip: IpAddress::V4(x), port: t[1]->Udp_0 }),
            Component::Ip6(x) => Some(SocketAddress { ip: IpAddress::V6(x), port: t[1]->Udp_0 }),
            _ => None,
        }
    } else {
        None
    }
}

/// Writes a socket address as a QUIC transport address.
pub fn to_transport(a: &SocketAddress) -> (r: TransportAddress)
    ensures
        r@ == transport_of(*a),
{
    let ip = match a.ip {
        IpAddress::V4(x) => Component::Ip4(x),
        IpAddress::V6(x) => Component::Ip6(x),
    };
    let mut components: Vec<Component> = Vec::new();
    components.push(ip);
    components.push(Component::Udp(a.port));
    components.push(Component::QuicV1);
    proof {
        assert(components@ =~= transport_of(*a));
    }
    TransportAddress { components }
}

/// Reads the socket address out of a QUIC transport address.
pub fn to_socket(t: &TransportAddress) -> (r: Result<SocketAddress, AddressError>)
    ensures
        r == (match socket_of(t@) {
            Some(a) => Ok(a),
            None => Err(AddressError::Unsupported),
        }),
{
    if t.components.len() != 3 {
        return Err(AddressError::Unsupported);
    }
    let port = match t.components[1] {
        Component::Udp(p) => p,
        _ => {
            return Err(AddressError::Unsupported);
        },
    };
    match t.components[2] {
        Component::QuicV1 | Component::Quic => {},
        _ => {
            return Err(AddressError::Unsupported);
        },
    }
    match t.components[0] {
        Component::Ip4(x) => Ok(SocketAddress { ip: IpAddress::V4(x), port }),
        Component::Ip6(x) => Ok(SocketAddress { ip: IpAddress::V6(x), port }),
        _ => Err(AddressError::Unsupported),
    }
}

/// Reading back the transport address written for a socket address gives
/// that socket address.
pub proof fn lemma_round_trip(a: SocketAddress)
    ensures
        socket_of(transport_of(a)) == Some(a),
{
}

} // verus!
