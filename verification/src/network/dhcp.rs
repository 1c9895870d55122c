//! The built-in DHCP server.
use vstd::prelude::*;

use crate::network::Ipv4;

verus! {

/// The DHCP server: it hands out addresses from a fixed lease range.
#[derive(Debug, Clone, Copy)]
pub struct DhcpServer {
    /// The server's own address.
    pub server_ip: Ipv4,
    /// First address of the lease range.
    pub lease_start: Ipv4,
    /// Last address of the lease range.
    pub lease_end: Ipv4,
}

impl DhcpServer {
    /// A server at `network` leasing 10.0.0.100 to 10.0.0.200.
    pub fn new(network: Ipv4) -> (s: Self)
        ensures
            s.server_ip == network,
            s.lease_start == Ipv4(10, 0, 0, 100),
            s.lease_end == Ipv4(10, 0, 0, 200),
    {
        DhcpServer {
            server_ip: network,
            lease_start: Ipv4::new(10, 0, 0, 100),
            lease_end: Ipv4::new(10, 0, 0, 200),
        }
    }

    /// The address leased to a client: no lease table is kept, so every client gets the
    /// first address of the range.
    pub fn allocate(&self, mac: [u8; 6]) -> (r: Option<Ipv4>)
        ensures
            r == Some(self.lease_start),
    {
        Some(self.lease_start)
    }
}

} // verus!
