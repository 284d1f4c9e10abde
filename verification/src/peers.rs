//! The peer routing table: from an address inside the tunnel to the endpoint
//! that serves it.

use std::collections::HashMap;
use vstd::prelude::*;
use crate::addr::VirtualAddr;
use crate::config::Peer;

verus! {

broadcast use vstd::std_specs::hash::group_hash_axioms;

/// The routes that a list of peers stands for. Peers are entered in order,
/// so of two peers with one address the later one keeps the route.
pub open spec fn routes_of(peers: Seq<Peer>) -> Map<VirtualAddr, Seq<char>>
    decreases peers.len(),
{
    if peers.len() == 0 {
        Map::empty()
    } else {
        routes_of(peers.drop_last()).insert(
            peers.last().virtual_address,
            peers.last().endpoint@,
        )
    }
}

/// No two peers of the list share an address.
pub open spec fn distinct_addresses(peers: Seq<Peer>) -> bool {
    forall|i: int, j: int|
        0 <= i < j < peers.len() ==> peers[i].virtual_address != peers[j].virtual_address
}

/// An address has a route exactly if some peer of the list has that address.
pub proof fn lemma_routes_of_domain(peers: Seq<Peer>, addr: VirtualAddr)
    ensures
        routes_of(peers).contains_key(addr) <==> exists|i: int|
            0 <= i < peers.len() && #[trigger] peers[i].virtual_address == addr,
    decreases peers.len(),
{
    if peers.len() > 0 {
        let front = peers.drop_last();
        lemma_routes_of_domain(front, addr);
        if routes_of(peers).contains_key(addr) {
            if peers.last().virtual_address == addr {
                assert(peers[peers.len() - 1].virtual_address == addr);
            } else {
                let i = choose|i: int| 0 <= i < front.len() && #[trigger] front[i].virtual_address == addr;
                assert(peers[i].virtual_address == addr);
            }
        }
        if exists|i: int| 0 <= i < peers.len() && #[trigger] peers[i].virtual_address == addr {
            let i = choose|i: int| 0 <= i < peers.len() && #[trigger] peers[i].virtual_address == addr;
            if i < peers.len() - 1 {
                assert(front[i].virtual_address == addr);
            }
        }
    }
}

/// The route of an address is the endpoint of the last peer that has it.
pub proof fn lemma_routes_of_last_wins(peers: Seq<Peer>, i: int)
    requires
        0 <= i < peers.len(),
        forall|j: int| i < j < peers.len() ==> peers[j].virtual_address != peers[i].virtual_address,
    ensures
        routes_of(peers).contains_key(peers[i].virtual_address),
        routes_of(peers)[peers[i].virtual_address] == peers[i].endpoint@,
    decreases peers.len(),
{
    if i < peers.len() - 1 {
        let front = peers.drop_last();
        assert(front[i] == peers[i]);
        assert forall|j: int| i < j < front.len() implies front[j].virtual_address
            != front[i].virtual_address by {
            assert(front[j] == peers[j]);
        }
        lemma_routes_of_last_wins(front, i);
    }
}

/// Where the peers' addresses are distinct, each peer's address is routed to
/// that peer's own endpoint.
pub proof fn lemma_routes_of_distinct(peers: Seq<Peer>, i: int)
    requires
        distinct_addresses(peers),
        0 <= i < peers.len(),
    ensures
        routes_of(peers).contains_key(peers[i].virtual_address),
        routes_of(peers)[peers[i].virtual_address] == peers[i].endpoint@,
{
    lemma_routes_of_last_wins(peers, i);
}

/// The routing table. It is filled once, from the configured peers, and only
/// read afterwards.
pub struct PeerTable {
    v4: HashMap<u32, String>,
    v6: HashMap<u128, String>,
}

impl View for PeerTable {
    type V = Map<VirtualAddr, Seq<char>>;

    closed spec fn view(&self) -> Map<VirtualAddr, Seq<char>> {
        Map::new(
            |addr: VirtualAddr|
                match addr {
                    VirtualAddr::V4(key) => self.v4@.contains_key(key),
                    VirtualAddr::V6(key) => self.v6@.contains_key(key),
                },
            |addr: VirtualAddr|
                match addr {
                    VirtualAddr::V4(key) => self.v4@[key]@,
                    VirtualAddr::V6(key) => self.v6@[key]@,
                },
        )
    }
}

impl PeerTable {
    /// The table of the given peers.
    pub fn from_peers(peers: &Vec<Peer>) -> (table: PeerTable)
        ensures
            table@ == routes_of(peers@),
    {
        let mut table = PeerTable { v4: HashMap::new(), v6: HashMap::new() };
        assert(table@ =~= routes_of(peers@.take(0)));
        let mut i: usize = 0;
        while i < peers.len()
            invariant
                i <= peers.len(),
                table@ == routes_of(peers@.take(i as int)),
            decreases peers.len() - i,
        {
            let ghost before = table@;
            let peer = &peers[i];
            match peer.virtual_address {
                VirtualAddr::V4(key) => {
                    table.v4.insert(key, peer.endpoint.clone());
                },
                VirtualAddr::V6(key) => {
                    table.v6.insert(key, peer.endpoint.clone());
                },
            }
            proof {
                assert(table@ =~= before.insert(peer.virtual_address, peer.endpoint@));
                assert(peers@.take(i + 1).drop_last() =~= peers@.take(i as int));
                assert(peers@.take(i + 1).last() == peers@[i as int]);
            }
            i += 1;
        }
        assert(peers@.take(peers.len() as int) =~= peers@);
        table
    }

    /// The endpoint that serves `addr`, if a peer has that address.
    pub fn lookup(&self, addr: VirtualAddr) -> (endpoint: Option<&String>)
        ensures
            match endpoint {
                Some(found) => self@.contains_key(addr) && found@ == self@[addr],
                None => !self@.contains_key(addr),
            },
    {
        match addr {
            VirtualAddr::V4(key) => self.v4.get(&key),
            VirtualAddr::V6(key) => self.v6.get(&key),
        }
    }
}

} // verus!
