//! The relay engine: what the tunnel does with each thing that happens at one
//! of its two adapters.
//!
//! The engine owns no device. Whoever runs it waits on the virtual interface
//! and on the datagram socket, hands each outcome over as an [`Event`], and
//! carries out the [`Action`] that comes back.

use vstd::prelude::*;
use crate::addr::VirtualAddr;
use crate::config::Config;
use crate::inspect::{classify, ipv4_destination, kind_of, PacketKind};
use crate::config::Peer;
use crate::peers::{
    distinct_addresses, lemma_routes_of_distinct, lemma_routes_of_domain, routes_of, PeerTable,
};

verus! {

/// Largest packet that the virtual interface carries. A physical link of 1500
/// bytes less 28 bytes of datagram and network headers leaves this much, so
/// that no relayed packet is fragmented on the way.
pub const TUN_PACKET_MTU: u16 = 1472;

/// Size of the buffer to receive into, at either adapter.
pub const RECV_BUFFER_LEN: usize = 1600;

/// Why the relay cannot run.
#[derive(Clone, Copy, Debug, PartialEq, Eq, Structural)]
#[non_exhaustive]
pub enum Error {
    /// The virtual interface could not be created.
    TunError,
    /// An adapter failed while receiving or sending.
    IoError,
}

/// The relay runs until an adapter fails; it never recovers from that.
#[derive(Clone, Copy, Debug, PartialEq, Eq, Structural)]
pub enum RelayState {
    Running,
    Failed(Error),
}

/// The operation of an adapter that failed.
#[derive(Clone, Copy, Debug, PartialEq, Eq, Structural)]
pub enum Fault {
    InterfaceReceive,
    InterfaceSend,
    TransportReceive,
    TransportSend,
}

/// What the virtual interface is created with. It is fixed when the relay is
/// made and never changes.
#[derive(Clone, Copy, Debug, PartialEq, Eq, Structural)]
pub struct InterfaceDescriptor {
    /// Address of this host inside the tunnel.
    pub address: VirtualAddr,
    /// Netmask of the tunnel's network.
    pub netmask: VirtualAddr,
    /// Largest packet that the interface carries: always `TUN_PACKET_MTU`.
    pub mtu: u16,
}

/// Something that happened at an adapter.
#[derive(Clone, Debug, PartialEq, Eq)]
pub enum Event {
    /// A datagram arrived at the socket; its payload is the packet.
    FromTransport(Vec<u8>),
    /// The operating system routed a packet into the virtual interface.
    FromInterface(Vec<u8>),
    /// The endpoint of the last `SendTransport` did not resolve to a network
    /// address. Only that packet is lost.
    EndpointUnresolved,
    /// An adapter failed at the device or socket layer.
    Failed(Fault),
}

/// Why a packet was not forwarded.
#[derive(Clone, Copy, Debug, PartialEq, Eq, Structural)]
pub enum DropReason {
    /// The frame is an IPv6 packet; the tunnel carries IPv4 only.
    Ipv6,
    /// The frame is an address-resolution packet.
    Arp,
    /// The frame is no packet of a kind the tunnel knows.
    Unparseable,
    /// No peer has the packet's destination address.
    NoRoute,
    /// The packet is longer than `TUN_PACKET_MTU`.
    Oversize,
    /// The peer's endpoint did not resolve.
    EndpointUnresolved,
}

/// What the runner of the relay has to do next.
#[derive(Clone, Debug, PartialEq, Eq)]
pub enum Action {
    /// Write the packet to the virtual interface.
    WriteInterface(Vec<u8>),
    /// Send the packet as one datagram to the endpoint.
    SendTransport { endpoint: String, packet: Vec<u8> },
    /// Nothing is forwarded; go on with the next event.
    Discard(DropReason),
    /// Stop the relay and report the error.
    Halt(Error),
}

/// An [`Event`] with its packet as a sequence of bytes.
pub enum EventView {
    FromTransport(Seq<u8>),
    FromInterface(Seq<u8>),
    EndpointUnresolved,
    Failed(Fault),
}

/// An [`Action`] with its packet and endpoint as sequences.
pub enum ActionView {
    WriteInterface(Seq<u8>),
    SendTransport { endpoint: Seq<char>, packet: Seq<u8> },
    Discard(DropReason),
    Halt(Error),
}

impl View for Event {
    type V = EventView;

    open spec fn view(&self) -> EventView {
        match self {
            Event::FromTransport(packet) => EventView::FromTransport(packet@),
            Event::FromInterface(packet) => EventView::FromInterface(packet@),
            Event::EndpointUnresolved => EventView::EndpointUnresolved,
            Event::Failed(fault) => EventView::Failed(*fault),
        }
    }
}

impl View for Action {
    type V = ActionView;

    open spec fn view(&self) -> ActionView {
        match self {
            Action::WriteInterface(packet) => ActionView::WriteInterface(packet@),
            Action::SendTransport { endpoint, packet } => ActionView::SendTransport {
                endpoint: endpoint@,
                packet: packet@,
            },
            Action::Discard(reason) => ActionView::Discard(*reason),
            Action::Halt(error) => ActionView::Halt(*error),
        }
    }
}

/// What is done with a packet that arrived at the socket: it goes to the
/// virtual interface as it is, unless the interface cannot carry it.
pub open spec fn inbound_action(packet: Seq<u8>) -> ActionView {
    if packet.len() > TUN_PACKET_MTU {
        ActionView::Discard(DropReason::Oversize)
    } else {
        ActionView::WriteInterface(packet)
    }
}

/// What is done with a packet of the given kind that the virtual interface
/// handed over: an IPv4 packet goes to the endpoint of the peer that has its
/// destination address, as it is; every other packet is dropped.
pub open spec fn outbound_action(
    routes: Map<VirtualAddr, Seq<char>>,
    packet: Seq<u8>,
    kind: PacketKind,
) -> ActionView {
    if packet.len() > TUN_PACKET_MTU {
        ActionView::Discard(DropReason::Oversize)
    } else {
        match kind {
            PacketKind::Ipv4 { dst } => if routes.contains_key(VirtualAddr::V4(dst)) {
                ActionView::SendTransport { endpoint: routes[VirtualAddr::V4(dst)], packet }
            } else {
                ActionView::Discard(DropReason::NoRoute)
            },
            PacketKind::Ipv6 => ActionView::Discard(DropReason::Ipv6),
            PacketKind::Arp => ActionView::Discard(DropReason::Arp),
            PacketKind::Unparseable => ActionView::Discard(DropReason::Unparseable),
        }
    }
}

/// The state after an event. Only a failed adapter ends the relay, and
/// nothing restarts it.
pub open spec fn next_state(state: RelayState, event: EventView) -> RelayState {
    match state {
        RelayState::Failed(error) => RelayState::Failed(error),
        RelayState::Running => match event {
            EventView::Failed(_) => RelayState::Failed(Error::IoError),
            _ => RelayState::Running,
        },
    }
}

/// The action that answers an event in a state, `kind` being the kind of the
/// packet where the event carries one from the virtual interface.
pub open spec fn action_for(
    routes: Map<VirtualAddr, Seq<char>>,
    state: RelayState,
    event: EventView,
    kind: PacketKind,
) -> ActionView {
    match state {
        RelayState::Failed(error) => ActionView::Halt(error),
        RelayState::Running => match event {
            EventView::FromTransport(packet) => inbound_action(packet),
            EventView::FromInterface(packet) => outbound_action(routes, packet, kind),
            EventView::EndpointUnresolved => ActionView::Discard(DropReason::EndpointUnresolved),
            EventView::Failed(_) => ActionView::Halt(Error::IoError),
        },
    }
}

/// The kind of the packet that an event brought from the virtual interface.
/// For any other event the kind is of no account.
pub open spec fn event_kind(event: EventView) -> PacketKind {
    match event {
        EventView::FromInterface(packet) => kind_of(packet),
        _ => PacketKind::Unparseable,
    }
}

/// Every packet that the relay forwards is the packet that the event
/// brought, byte for byte, and it leaves on the other side: what came from
/// the socket is written to the virtual interface, what came from the virtual
/// interface is sent to a peer. A packet from the socket that the interface
/// can carry is always written.
pub proof fn lemma_packets_pass_unchanged(
    routes: Map<VirtualAddr, Seq<char>>,
    state: RelayState,
    event: EventView,
    kind: PacketKind,
)
    ensures
        action_for(routes, state, event, kind) matches ActionView::WriteInterface(packet)
            ==> event == EventView::FromTransport(packet),
        action_for(routes, state, event, kind) matches ActionView::SendTransport { packet, .. }
            ==> event == EventView::FromInterface(packet),
        state == RelayState::Running ==> forall|packet: Seq<u8>|
            packet.len() <= TUN_PACKET_MTU ==> #[trigger] action_for(
                routes,
                state,
                EventView::FromTransport(packet),
                kind,
            ) == ActionView::WriteInterface(packet),
{
}

/// With peers of distinct addresses, an IPv4 packet for the address of one of
/// them is sent to that peer's endpoint and to no other, unchanged.
pub proof fn lemma_peer_routing(peers: Seq<Peer>, i: int, packet: Seq<u8>, dst: u32)
    requires
        distinct_addresses(peers),
        0 <= i < peers.len(),
        peers[i].virtual_address == VirtualAddr::V4(dst),
        packet.len() <= TUN_PACKET_MTU,
    ensures
        action_for(
            routes_of(peers),
            RelayState::Running,
            EventView::FromInterface(packet),
            PacketKind::Ipv4 { dst },
        ) == (ActionView::SendTransport { endpoint: peers[i].endpoint@, packet }),
{
    lemma_routes_of_distinct(peers, i);
}

/// An IPv4 packet for an address that no peer has is dropped, and the relay
/// goes on.
pub proof fn lemma_unknown_destination_dropped(peers: Seq<Peer>, packet: Seq<u8>, dst: u32)
    requires
        forall|i: int| 0 <= i < peers.len() ==> peers[i].virtual_address != VirtualAddr::V4(dst),
        packet.len() <= TUN_PACKET_MTU,
    ensures
        action_for(
            routes_of(peers),
            RelayState::Running,
            EventView::FromInterface(packet),
            PacketKind::Ipv4 { dst },
        ) == ActionView::Discard(DropReason::NoRoute),
        next_state(RelayState::Running, EventView::FromInterface(packet)) == RelayState::Running,
{
    lemma_routes_of_domain(peers, VirtualAddr::V4(dst));
}

/// A packet that is not IPv4 is dropped whatever the routes are, and the
/// event that follows is answered as if the packet had never come.
pub proof fn lemma_other_kinds_dropped(
    routes: Map<VirtualAddr, Seq<char>>,
    packet: Seq<u8>,
    kind: PacketKind,
    following: EventView,
    following_kind: PacketKind,
)
    requires
        !(kind is Ipv4),
    ensures
        action_for(routes, RelayState::Running, EventView::FromInterface(packet), kind) is Discard,
        next_state(RelayState::Running, EventView::FromInterface(packet)) == RelayState::Running,
        action_for(
            routes,
            next_state(RelayState::Running, EventView::FromInterface(packet)),
            following,
            following_kind,
        ) == action_for(routes, RelayState::Running, following, following_kind),
{
}

/// A frame that is no packet is dropped as unparseable, and the relay goes
/// on.
pub proof fn lemma_malformed_dropped(routes: Map<VirtualAddr, Seq<char>>, packet: Seq<u8>)
    requires
        packet.len() <= TUN_PACKET_MTU,
    ensures
        action_for(
            routes,
            RelayState::Running,
            EventView::FromInterface(packet),
            PacketKind::Unparseable,
        ) == ActionView::Discard(DropReason::Unparseable),
        next_state(RelayState::Running, EventView::FromInterface(packet)) == RelayState::Running,
{
}

/// A packet of exactly `TUN_PACKET_MTU` bytes is forwarded in either
/// direction; a longer one is dropped as oversize in either direction,
/// whatever its kind.
pub proof fn lemma_mtu_boundary(
    routes: Map<VirtualAddr, Seq<char>>,
    packet: Seq<u8>,
    kind: PacketKind,
)
    ensures
        packet.len() == TUN_PACKET_MTU ==> inbound_action(packet) == ActionView::WriteInterface(
            packet,
        ),
        forall|dst: u32|
            packet.len() == TUN_PACKET_MTU && routes.contains_key(VirtualAddr::V4(dst))
                ==> #[trigger] outbound_action(routes, packet, PacketKind::Ipv4 { dst })
                == (ActionView::SendTransport { endpoint: routes[VirtualAddr::V4(dst)], packet }),
        packet.len() > TUN_PACKET_MTU ==> inbound_action(packet) == ActionView::Discard(
            DropReason::Oversize,
        ),
        packet.len() > TUN_PACKET_MTU ==> outbound_action(routes, packet, kind)
            == ActionView::Discard(DropReason::Oversize),
{
}

/// A failed adapter stops a running relay with an I/O error, and a stopped
/// relay stays stopped: it answers every later event with the same error.
pub proof fn lemma_fault_is_fatal(
    routes: Map<VirtualAddr, Seq<char>>,
    fault: Fault,
    later: EventView,
    kind: PacketKind,
)
    ensures
        next_state(RelayState::Running, EventView::Failed(fault)) == RelayState::Failed(
            Error::IoError,
        ),
        action_for(routes, RelayState::Running, EventView::Failed(fault), kind)
            == ActionView::Halt(Error::IoError),
        forall|error: Error| #[trigger]
            next_state(RelayState::Failed(error), later) == RelayState::Failed(error),
        forall|error: Error| #[trigger]
            action_for(routes, RelayState::Failed(error), later, kind) == ActionView::Halt(error),
{
}

/// The state after a run of events, taken in order.
pub open spec fn state_after(state: RelayState, events: Seq<EventView>) -> RelayState
    decreases events.len(),
{
    if events.len() == 0 {
        state
    } else {
        next_state(state_after(state, events.drop_last()), events.last())
    }
}

/// Whatever packets come and whatever is dropped, a relay runs as long as no
/// adapter has failed; from the first failure on it has stopped with an I/O
/// error.
pub proof fn lemma_runs_until_an_adapter_fails(events: Seq<EventView>)
    ensures
        state_after(RelayState::Running, events) == if exists|i: int|
            0 <= i < events.len() && #[trigger] events[i] is Failed {
            RelayState::Failed(Error::IoError)
        } else {
            RelayState::Running
        },
    decreases events.len(),
{
    if events.len() > 0 {
        let front = events.drop_last();
        lemma_runs_until_an_adapter_fails(front);
        if exists|i: int| 0 <= i < front.len() && #[trigger] front[i] is Failed {
            let i = choose|i: int| 0 <= i < front.len() && #[trigger] front[i] is Failed;
            assert(events[i] is Failed);
        } else if events.last() is Failed {
            assert(events[events.len() - 1] is Failed);
        } else {
            assert forall|i: int| 0 <= i < events.len() implies !(#[trigger] events[i] is Failed) by {
                if i < front.len() {
                    assert(front[i] == events[i]);
                }
            }
        }
    }
}

/// The relay engine of one tunnel: its address, its routes and whether it
/// still runs.
pub struct Device {
    interface: InterfaceDescriptor,
    endpoint: String,
    peers: PeerTable,
    state: RelayState,
}

impl Device {
    /// The routes of this relay.
    pub closed spec fn routes(&self) -> Map<VirtualAddr, Seq<char>> {
        self.peers@
    }

    /// Whether this relay still runs.
    pub closed spec fn relay_state(&self) -> RelayState {
        self.state
    }

    /// What the virtual interface of this relay is created with.
    pub closed spec fn descriptor(&self) -> InterfaceDescriptor {
        self.interface
    }

    /// The local `host:port` that the socket of this relay binds to.
    pub closed spec fn bind_endpoint(&self) -> Seq<char> {
        self.endpoint@
    }

    /// A running relay for the configured interface and peers. The interface
    /// gets the configured address and netmask and an MTU of
    /// `TUN_PACKET_MTU`; of two peers with one address the later one keeps
    /// the route.
    pub fn new(vpn_config: Config) -> (device: Device)
        ensures
            device.routes() == routes_of(vpn_config.peers@),
            device.descriptor() == (InterfaceDescriptor {
                address: vpn_config.interface.virtual_address,
                netmask: vpn_config.interface.virtual_netmask,
                mtu: TUN_PACKET_MTU,
            }),
            device.bind_endpoint() == vpn_config.interface.endpoint@,
            device.relay_state() == RelayState::Running,
    {
        Device {
            interface: InterfaceDescriptor {
                address: vpn_config.interface.virtual_address,
                netmask: vpn_config.interface.virtual_netmask,
                mtu: TUN_PACKET_MTU,
            },
            peers: PeerTable::from_peers(&vpn_config.peers),
            endpoint: vpn_config.interface.endpoint,
            state: RelayState::Running,
        }
    }

    /// Decides on a packet that arrived at the socket.
    pub fn deliver(&self, packet: Vec<u8>) -> (action: Action)
        ensures
            action@ == inbound_action(packet@),
    {
        if packet.len() > TUN_PACKET_MTU as usize {
            Action::Discard(DropReason::Oversize)
        } else {
            Action::WriteInterface(packet)
        }
    }

    /// Decides on a packet from the virtual interface whose kind is known.
    pub fn route(&self, packet: Vec<u8>, kind: PacketKind) -> (action: Action)
        ensures
            action@ == outbound_action(self.routes(), packet@, kind),
    {
        if packet.len() > TUN_PACKET_MTU as usize {
            return Action::Discard(DropReason::Oversize);
        }
        match kind {
            PacketKind::Ipv4 { dst } => match self.peers.lookup(VirtualAddr::V4(dst)) {
                Some(endpoint) => Action::SendTransport { endpoint: endpoint.clone(), packet },
                None => Action::Discard(DropReason::NoRoute),
            },
            PacketKind::Ipv6 => Action::Discard(DropReason::Ipv6),
            PacketKind::Arp => Action::Discard(DropReason::Arp),
            PacketKind::Unparseable => Action::Discard(DropReason::Unparseable),
        }
    }

    /// One step of the relay: takes what happened and says what to do.
    ///
    /// While the relay runs, a packet from the socket goes to the virtual
    /// interface and an IPv4 packet from the virtual interface goes to the
    /// peer that has its destination address, both unchanged. Packets of any
    /// other kind, packets for an address that no peer has, packets longer
    /// than `TUN_PACKET_MTU` and packets whose endpoint did not resolve are
    /// dropped, and the relay goes on. A failed adapter stops the relay for
    /// good: this and every later step answer `Halt`.
    pub fn step(&mut self, event: Event) -> (action: Action)
        ensures
            final(self).routes() == old(self).routes(),
            final(self).descriptor() == old(self).descriptor(),
            final(self).bind_endpoint() == old(self).bind_endpoint(),
            final(self).relay_state() == next_state(old(self).relay_state(), event@),
            action@ == action_for(
                old(self).routes(),
                old(self).relay_state(),
                event@,
                event_kind(event@),
            ),
            action@ matches ActionView::SendTransport { endpoint, packet } ==> {
                &&& event@ == EventView::FromInterface(packet)
                &&& 20 <= packet.len() <= TUN_PACKET_MTU
                &&& packet[0] / 16 == 4
                &&& old(self).routes().contains_key(VirtualAddr::V4(ipv4_destination(packet)))
                &&& endpoint == old(self).routes()[VirtualAddr::V4(ipv4_destination(packet))]
            },
    {
        match self.state {
            RelayState::Failed(error) => Action::Halt(error),
            RelayState::Running => match event {
                Event::FromTransport(packet) => self.deliver(packet),
                Event::FromInterface(packet) => {
                    let kind = classify(packet.as_slice());
                    self.route(packet, kind)
                },
                Event::EndpointUnresolved => Action::Discard(DropReason::EndpointUnresolved),
                Event::Failed(_) => {
                    self.state = RelayState::Failed(Error::IoError);
                    Action::Halt(Error::IoError)
                },
            },
        }
    }

    /// What to create the virtual interface with.
    pub fn interface(&self) -> (interface: InterfaceDescriptor)
        ensures
            interface == self.descriptor(),
    {
        self.interface
    }

    /// The address of this host inside the tunnel.
    pub fn virtual_addr(&self) -> (addr: VirtualAddr)
        ensures
            addr == self.descriptor().address,
    {
        self.interface.address
    }

    /// The local `host:port` to bind the socket to.
    pub fn endpoint(&self) -> (endpoint: &String)
        ensures
            endpoint@ == self.bind_endpoint(),
    {
        &self.endpoint
    }

    /// The routing table.
    pub fn peers(&self) -> (table: &PeerTable)
        ensures
            table@ == self.routes(),
    {
        &self.peers
    }

    /// Whether the relay runs, or with which error it stopped.
    pub fn state(&self) -> (state: RelayState)
        ensures
            state == self.relay_state(),
    {
        self.state
    }
}

impl Error {
    /// The text that describes this error.
    pub open spec fn text(self) -> Seq<char> {
        match self {
            Error::TunError => "tun error"@,
            Error::IoError => "I/O error"@,
        }
    }

    /// The text that describes this error, for display.
    pub fn message(&self) -> (message: String)
        ensures
            message@ == self.text(),
    {
        match self {
            Error::TunError => "tun error".to_owned(),
            Error::IoError => "I/O error".to_owned(),
        }
    }
}

impl DropReason {
    /// Whether a drop for this reason goes unreported. The tunnel carries
    /// IPv4 only, so IPv6 and address-resolution packets are expected and
    /// dropped in silence; every other drop is worth a diagnostic.
    pub fn is_silent(&self) -> (silent: bool)
        ensures
            silent == (*self is Ipv6 || *self is Arp),
    {
        match self {
            DropReason::Ipv6 => true,
            DropReason::Arp => true,
            _ => false,
        }
    }
}

} // verus!
