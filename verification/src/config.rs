//! The tunnel's configuration, as plain values.

use vstd::prelude::*;
use crate::addr::VirtualAddr;

verus! {

/// The local end of the tunnel.
#[derive(Clone, Debug)]
pub struct Interface {
    /// Name of the virtual network device.
    pub name: String,
    /// Address of this host inside the tunnel.
    pub virtual_address: VirtualAddr,
    /// Netmask of the tunnel's network.
    pub virtual_netmask: VirtualAddr,
    /// Local `host:port` that the datagram socket binds to.
    pub endpoint: String,
}

/// A remote host: its address inside the tunnel and the `host:port` at which
/// its datagram socket listens.
#[derive(Clone, Debug)]
pub struct Peer {
    pub virtual_address: VirtualAddr,
    pub endpoint: String,
}

/// Everything the relay is set up from.
#[derive(Clone, Debug)]
pub struct Config {
    pub interface: Interface,
    pub peers: Vec<Peer>,
}

} // verus!
