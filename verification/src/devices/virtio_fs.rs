//! virtio-fs shared directory.
use vstd::prelude::*;

use crate::devices::VirtioDeviceType;

verus! {

/// A host directory shared with the guest.
pub struct VirtioFs {
    /// Mount tag inside the guest.
    pub tag: String,
    /// Host directory.
    pub host_path: String,
    /// Whether the guest may only read.
    pub read_only: bool,
}

impl VirtioFs {
    /// A writable share of `host_path` under `tag`.
    pub fn new(tag: String, host_path: String) -> (f: Self)
        ensures
            f.tag@ == tag@,
            f.host_path@ == host_path@,
            !f.read_only,
    {
        VirtioFs { tag, host_path, read_only: false }
    }

    /// The same share, read-only.
    pub fn read_only(self) -> (f: Self)
        ensures
            f.tag@ == self.tag@,
            f.host_path@ == self.host_path@,
            f.read_only,
    {
        let mut s = self;
        s.read_only = true;
        s
    }

    /// Always `Fs`.
    pub fn device_type(&self) -> (t: VirtioDeviceType)
        ensures
            t == VirtioDeviceType::Fs,
    {
        VirtioDeviceType::Fs
    }
}

} // verus!
