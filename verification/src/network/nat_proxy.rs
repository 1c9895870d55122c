//! Address translation for the guest network.
use vstd::prelude::*;

use crate::network::Ipv4;

verus! {

/// The NAT proxy; translation currently keeps addresses as they are.
#[derive(Debug, Clone)]
pub struct NatProxy {
    /// The host interface used for outgoing traffic, when one is chosen.
    pub external_interface: Option<String>,
}

impl NatProxy {
    /// A proxy with no interface chosen.
    pub fn new() -> (p: Self)
        ensures
            p.external_interface is None,
    {
        NatProxy { external_interface: None }
    }

    /// The translated source address (the address itself).
    pub fn translate(&self, src: Ipv4) -> (r: Ipv4)
        ensures
            r == src,
    {
        src
    }
}

impl Default for NatProxy {
    /// Same as `NatProxy::new`.
    fn default() -> (p: Self)
        ensures
            p.external_interface is None,
    {
        NatProxy::new()
    }
}

} // verus!
