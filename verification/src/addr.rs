//! Addresses inside the tunnel.

use vstd::prelude::*;

verus! {

/// An address of the tunnel's own network, held as the integer that its
/// octets spell in network byte order.
#[derive(Clone, Copy, Debug, PartialEq, Eq, Hash, Structural)]
pub enum VirtualAddr {
    V4(u32),
    V6(u128),
}

/// The number that four octets spell in network byte order.
pub open spec fn ipv4_value(octets: Seq<u8>) -> int
    recommends
        octets.len() == 4,
{
    octets[0] * 0x100_0000 + octets[1] * 0x1_0000 + octets[2] * 0x100 + octets[3]
}

/// Two groups of four octets spell the same number only if they are the same
/// octets: no two IPv4 addresses share a key of the routing table.
pub proof fn lemma_ipv4_value_injective(a: Seq<u8>, b: Seq<u8>)
    requires
        a.len() == 4,
        b.len() == 4,
        ipv4_value(a) == ipv4_value(b),
    ensures
        a == b,
{
    assert(a[0] == b[0] && a[1] == b[1] && a[2] == b[2] && a[3] == b[3]);
    assert(a =~= b);
}

impl VirtualAddr {
    /// The IPv4 address with the given octets, first octet first.
    pub fn from_v4_octets(octets: [u8; 4]) -> (addr: VirtualAddr)
        ensures
            addr == VirtualAddr::V4(ipv4_value(octets@) as u32),
            ipv4_value(octets@) <= u32::MAX,
    {
        let value: u32 = (octets[0] as u32) * 0x100_0000 + (octets[1] as u32) * 0x1_0000 + (
        octets[2] as u32) * 0x100 + (octets[3] as u32);
        VirtualAddr::V4(value)
    }
}

} // verus!
