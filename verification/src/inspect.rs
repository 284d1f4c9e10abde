//! The header inspector: what kind of frame the virtual interface handed over.

use vstd::prelude::*;
use crate::addr::ipv4_value;

verus! {

/// What the packet parser reported of a frame that starts at its network
/// header.
#[derive(Clone, Copy, Debug, PartialEq, Eq)]
pub enum IpSlicing {
    /// An IPv4 packet, with the destination octets of its header.
    Ipv4([u8; 4]),
    /// An IPv6 packet.
    Ipv6,
    /// An address-resolution packet.
    Arp,
    /// The parser accepted the frame and found no network layer in it.
    NoNetwork,
    /// The parser refused the frame.
    Rejected,
}

/// The kind of a frame, as far as the relay cares.
#[derive(Clone, Copy, Debug, PartialEq, Eq, Structural)]
pub enum PacketKind {
    /// An IPv4 packet for the destination `dst`, the number its four octets
    /// spell in network byte order.
    Ipv4 { dst: u32 },
    Ipv6,
    Arp,
    Unparseable,
}

/// What `etherparse::SlicedPacket::from_ip` makes of `bytes`, reduced to the
/// network layer it found.
pub uninterp spec fn ip_slicing_of(bytes: Seq<u8>) -> IpSlicing;

/// `bytes` begins with an IPv4 header whose destination field holds `dst`.
pub open spec fn has_ipv4_destination(bytes: Seq<u8>, dst: Seq<u8>) -> bool {
    &&& bytes.len() >= 20
    &&& bytes[0] / 16 == 4
    &&& dst =~= bytes.subrange(16, 20)
}

/// The kind that the relay gives a frame for which the parser reported
/// `slicing`.
pub open spec fn kind_of_slicing(slicing: IpSlicing) -> PacketKind {
    match slicing {
        IpSlicing::Ipv4(dst) => PacketKind::Ipv4 { dst: ipv4_value(dst@) as u32 },
        IpSlicing::Ipv6 => PacketKind::Ipv6,
        IpSlicing::Arp => PacketKind::Arp,
        IpSlicing::NoNetwork => PacketKind::Unparseable,
        IpSlicing::Rejected => PacketKind::Unparseable,
    }
}

/// The kind of the frame `bytes`.
pub open spec fn kind_of(bytes: Seq<u8>) -> PacketKind {
    kind_of_slicing(ip_slicing_of(bytes))
}

/// The destination that the header of an IPv4 frame names.
pub open spec fn ipv4_destination(bytes: Seq<u8>) -> u32
    recommends
        bytes.len() >= 20,
{
    ipv4_value(bytes.subrange(16, 20)) as u32
}

/// Calls `etherparse::SlicedPacket::from_ip` on the frame and reports the
/// network layer of the outcome. Not proved: that the outcome depends on the
/// bytes alone, and that an IPv4 outcome comes only for a frame of at least
/// twenty bytes whose first half-byte is 4, with the destination read from
/// bytes 16 to 19 of it.
#[verifier::external_body]
fn slice_from_ip(bytes: &[u8]) -> (slicing: IpSlicing)
    ensures
        slicing == ip_slicing_of(bytes@),
        slicing matches IpSlicing::Ipv4(dst) ==> has_ipv4_destination(bytes@, dst@),
{
    match etherparse::SlicedPacket::from_ip(bytes) {
        Err(_) => IpSlicing::Rejected,
        Ok(sliced) => match sliced.net {
            None => IpSlicing::NoNetwork,
            Some(etherparse::NetSlice::Ipv4(ipv4)) => IpSlicing::Ipv4(ipv4.header().destination()),
            Some(etherparse::NetSlice::Ipv6(_)) => IpSlicing::Ipv6,
            Some(etherparse::NetSlice::Arp(_)) => IpSlicing::Arp,
        },
    }
}

impl PacketKind {
    /// The kind of a frame from what the parser reported of it. A frame that
    /// the parser refused, or in which it found no network layer, is
    /// unparseable.
    pub fn from_slicing(slicing: IpSlicing) -> (kind: PacketKind)
        ensures
            kind == kind_of_slicing(slicing),
    {
        match slicing {
            IpSlicing::Ipv4(dst) => {
                let value: u32 = (dst[0] as u32) * 0x100_0000 + (dst[1] as u32) * 0x1_0000 + (
                dst[2] as u32) * 0x100 + (dst[3] as u32);
                PacketKind::Ipv4 { dst: value }
            },
            IpSlicing::Ipv6 => PacketKind::Ipv6,
            IpSlicing::Arp => PacketKind::Arp,
            IpSlicing::NoNetwork => PacketKind::Unparseable,
            IpSlicing::Rejected => PacketKind::Unparseable,
        }
    }
}

/// Classifies a frame read from the virtual interface. Never fails: a frame
/// that is no packet is `Unparseable`.
pub fn classify(packet: &[u8]) -> (kind: PacketKind)
    ensures
        kind == kind_of(packet@),
        kind matches PacketKind::Ipv4 { dst } ==> {
            &&& packet@.len() >= 20
            &&& packet@[0] / 16 == 4
            &&& dst == ipv4_destination(packet@)
        },
{
    let slicing = slice_from_ip(packet);
    PacketKind::from_slicing(slicing)
}

} // verus!
