//! Addresses of peers: which of them can be dialed, and which the node starts out with.
use crate::address::BitcoinNetwork;
use crate::ext;
use crate::ext::NetworkExt;
use vstd::prelude::*;

verus! {

/// An address of the internet, its bytes in network order.
#[derive(Debug, Clone, Copy, PartialEq, Eq, Hash)]
pub enum IpAddr {
    V4([u8; 4]),
    V6([u8; 16]),
}

/// Where to connect to.
#[derive(Debug, Clone, Copy, PartialEq, Eq, Hash)]
pub struct SocketAddr {
    pub ip: IpAddr,
    pub port: u16,
}

/// An address as peers pass it on. `Other` stands for the overlay networks, which the node has no
/// way to reach.
#[derive(Debug, Clone, Copy, PartialEq, Eq, Hash)]
pub enum PeerAddr {
    Ipv4([u8; 4]),
    Ipv6([u8; 16]),
    Other,
}

/// What the node keeps of a peer: its address, the services that it offers, and who told.
#[derive(Debug, Clone, Copy, PartialEq, Eq, Hash)]
pub struct PeerRecord {
    pub addr: PeerAddr,
    pub port: u16,
    pub services: u64,
    pub source: IpAddr,
}

/// The service bit of a node that serves the whole chain.
pub const SERVICE_NETWORK: u64 = 1;

/// The resolver that first addresses come from.
pub const DNS_RESOLVER: [u8; 4] = [1, 1, 1, 1];

/// The socket of an address that can be dialed.
pub open spec fn dialable(addr: PeerAddr, port: u16) -> Option<SocketAddr> {
    match addr {
        PeerAddr::Ipv4(ip) => Some(SocketAddr { ip: IpAddr::V4(ip), port }),
        PeerAddr::Ipv6(ip) => Some(SocketAddr { ip: IpAddr::V6(ip), port }),
        PeerAddr::Other => None,
    }
}

pub fn socket_address(addr: PeerAddr, port: u16) -> (res: Option<SocketAddr>)
    ensures
        res == dialable(addr, port),
{
    match addr {
        PeerAddr::Ipv4(ip) => Some(SocketAddr { ip: IpAddr::V4(ip), port }),
        PeerAddr::Ipv6(ip) => Some(SocketAddr { ip: IpAddr::V6(ip), port }),
        PeerAddr::Other => None,
    }
}

/// The record of a node that serves the whole chain.
pub open spec fn full_node(ip: IpAddr, port: u16) -> PeerRecord {
    PeerRecord {
        addr: match ip {
            IpAddr::V4(ip) => PeerAddr::Ipv4(ip),
            IpAddr::V6(ip) => PeerAddr::Ipv6(ip),
        },
        port,
        services: SERVICE_NETWORK,
        source: IpAddr::V4(DNS_RESOLVER),
    }
}

fn full_node_record(ip: IpAddr, port: u16) -> (res: PeerRecord)
    ensures
        res == full_node(ip, port),
{
    let addr = match ip {
        IpAddr::V4(ip) => PeerAddr::Ipv4(ip),
        IpAddr::V6(ip) => PeerAddr::Ipv6(ip),
    };
    PeerRecord { addr, port, services: SERVICE_NETWORK, source: IpAddr::V4(DNS_RESOLVER) }
}

/// The peers that the node starts out with: the one that it is told to connect to, or else all
/// that the seeds name, on the port of the network.
pub open spec fn first_peers(
    connect: Option<SocketAddr>,
    seeds: Seq<IpAddr>,
    network: BitcoinNetwork,
) -> Seq<PeerRecord> {
    match connect {
        Some(addr) => seq![full_node(addr.ip, addr.port)],
        None => Seq::new(seeds.len(), |i: int| full_node(seeds[i], ext::p2p_port(network))),
    }
}

pub fn seed_records(
    connect: Option<SocketAddr>,
    seeds: &Vec<IpAddr>,
    network: BitcoinNetwork,
) -> (res: Vec<PeerRecord>)
    ensures
        res@ == first_peers(connect, seeds@, network),
{
    let mut records: Vec<PeerRecord> = Vec::new();
    match connect {
        Some(addr) => records.push(full_node_record(addr.ip, addr.port)),
        None => {
            let mut i: usize = 0;
            while i < seeds.len()
                invariant
                    i <= seeds@.len(),
                    records@.len() == i,
                    forall|j: int|
                        0 <= j < i ==> #[trigger] records@[j] == full_node(
                            seeds@[j],
                            ext::p2p_port(network),
                        ),
                decreases seeds@.len() - i,
            {
                records.push(full_node_record(seeds[i], network.default_p2p_port()));
                i += 1;
            }
        },
    }
    assert(records@ =~= first_peers(connect, seeds@, network));
    records
}

/// The peer to talk to next: the one that the node is told to connect to, or else the one that
/// was drawn, if it can be dialed.
pub open spec fn peer_to_dial(
    connect: Option<SocketAddr>,
    drawn: Option<(PeerAddr, u16)>,
) -> Option<SocketAddr> {
    match (connect, drawn) {
        (Some(addr), _) => Some(addr),
        (None, Some(drawn)) => dialable(drawn.0, drawn.1),
        (None, None) => None,
    }
}

pub fn next_peer(connect: Option<SocketAddr>, drawn: Option<(PeerAddr, u16)>) -> (res: Option<
    SocketAddr,
>)
    ensures
        res == peer_to_dial(connect, drawn),
{
    match connect {
        Some(addr) => Some(addr),
        None => match drawn {
            Some((addr, port)) => socket_address(addr, port),
            None => None,
        },
    }
}

/// Each first peer can be dialed, at the address that it was given for.
pub proof fn first_peers_are_dialable(
    connect: Option<SocketAddr>,
    seeds: Seq<IpAddr>,
    network: BitcoinNetwork,
)
    ensures
        connect matches Some(addr) ==> dialable(
            first_peers(connect, seeds, network)[0].addr,
            first_peers(connect, seeds, network)[0].port,
        ) == Some(addr),
        connect is None ==> forall|i: int|
            0 <= i < seeds.len() ==> dialable(
                (#[trigger] first_peers(connect, seeds, network)[i]).addr,
                first_peers(connect, seeds, network)[i].port,
            ) == Some(SocketAddr { ip: seeds[i], port: ext::p2p_port(network) }),
{
}

/// Every peer with an internet address is dialed at that address and port, whichever of the two
/// sorts it is; one of an overlay network is not. A peer that the node is told to connect to is
/// dialed whatever was drawn.
pub proof fn drawn_peers_are_dialed(
    v4: [u8; 4],
    v6: [u8; 16],
    port: u16,
    told: SocketAddr,
    drawn: Option<(PeerAddr, u16)>,
)
    ensures
        peer_to_dial(None, Some((PeerAddr::Ipv4(v4), port))) == Some(
            SocketAddr { ip: IpAddr::V4(v4), port },
        ),
        peer_to_dial(None, Some((PeerAddr::Ipv6(v6), port))) == Some(
            SocketAddr { ip: IpAddr::V6(v6), port },
        ),
        peer_to_dial(None, Some((PeerAddr::Other, port))) is None,
        peer_to_dial(None, None) is None,
        peer_to_dial(Some(told), drawn) == Some(told),
        drawn matches Some((addr, at)) ==> peer_to_dial(None, drawn) == dialable(addr, at),
{
}

/// Each first peer, when it is drawn, is dialed next: the one that the node is told to connect
/// to, or else each of the seeds in turn, on the network's port. All are put down as full nodes
/// that the resolver told of.
pub proof fn first_peers_are_dialed_when_drawn(
    connect: Option<SocketAddr>,
    seeds: Seq<IpAddr>,
    network: BitcoinNetwork,
)
    ensures
        connect matches Some(told) ==> first_peers(connect, seeds, network).len() == 1
            && peer_to_dial(
            None,
            Some(
                (
                    first_peers(connect, seeds, network)[0].addr,
                    first_peers(connect, seeds, network)[0].port,
                ),
            ),
        ) == Some(told),
        connect is None ==> first_peers(connect, seeds, network).len() == seeds.len(),
        connect is None ==> forall|i: int|
            0 <= i < seeds.len() ==> peer_to_dial(
                None,
                Some(
                    (
                        (#[trigger] first_peers(connect, seeds, network)[i]).addr,
                        first_peers(connect, seeds, network)[i].port,
                    ),
                ),
            ) == Some(SocketAddr { ip: seeds[i], port: ext::p2p_port(network) }),
        forall|i: int|
            0 <= i < first_peers(connect, seeds, network).len() ==> (#[trigger] first_peers(
                connect,
                seeds,
                network,
            )[i]).services == 1 && first_peers(connect, seeds, network)[i].source == IpAddr::V4(
                [1, 1, 1, 1],
            ),
{
}

} // verus!
