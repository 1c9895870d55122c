//! Guest networking: NAT, DHCP and the host-side LLM proxy.
//!
//! The guest reaches a NAT network (10.0.2.0/24) through its VirtIO NIC; the
//! gateway and LLM proxy live at 10.0.2.3, the proxy on port 8080.
use vstd::prelude::*;
use vstd::string::*;

pub mod dhcp;
pub mod llm_proxy;
pub mod nat_proxy;

verus! {

/// An IPv4 address `a.b.c.d` as its four octets, most significant first.
#[derive(Debug, Clone, Copy, PartialEq, Eq, Structural)]
pub struct Ipv4(pub u8, pub u8, pub u8, pub u8);

impl Ipv4 {
    /// The address `a.b.c.d`.
    pub fn new(a: u8, b: u8, c: u8, d: u8) -> (ip: Self)
        ensures
            ip == Ipv4(a, b, c, d),
    {
        Ipv4(a, b, c, d)
    }
}

/// Guest network settings.
#[derive(Debug, Clone)]
pub struct NetworkConfig {
    /// Guest subnet in CIDR form.
    pub subnet: String,
    /// Gateway (and proxy) address.
    pub gateway: String,
    /// Port of the LLM proxy.
    pub llm_proxy_port: u16,
}

impl Default for NetworkConfig {
    /// Subnet `10.0.2.0/24`, gateway `10.0.2.3`, proxy port 8080.
    fn default() -> (c: Self)
        ensures
            c.subnet@ == "10.0.2.0/24"@,
            c.gateway@ == "10.0.2.3"@,
            c.llm_proxy_port == 8080,
    {
        NetworkConfig {
            subnet: String::from_str("10.0.2.0/24"),
            gateway: String::from_str("10.0.2.3"),
            llm_proxy_port: 8080,
        }
    }
}

} // verus!
