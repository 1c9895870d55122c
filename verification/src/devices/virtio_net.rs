//! virtio-net network card.
use vstd::prelude::*;

use crate::devices::VirtioDeviceType;

verus! {

/// A virtio-net device.
pub struct VirtioNet {
    /// Host backend (tap device name or interface id).
    pub backend: String,
    /// Guest MAC address.
    pub mac: [u8; 6],
}

impl VirtioNet {
    /// A card with the given backend and MAC address.
    pub fn new(backend: String, mac: [u8; 6]) -> (n: Self)
        ensures
            n.backend@ == backend@,
            n.mac == mac,
    {
        VirtioNet { backend, mac }
    }

    /// Always `Net`.
    pub fn device_type(&self) -> (t: VirtioDeviceType)
        ensures
            t == VirtioDeviceType::Net,
    {
        VirtioDeviceType::Net
    }
}

} // verus!
