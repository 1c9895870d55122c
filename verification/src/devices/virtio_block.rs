//! virtio-blk block device.
use vstd::prelude::*;

use crate::devices::VirtioDeviceType;

verus! {

/// Bytes per sector.
pub const SECTOR_SIZE: u64 = 512;

/// A virtio-blk device backed by a host image file.
pub struct VirtioBlock {
    /// Host path of the backing image.
    pub image_path: String,
    /// Capacity in 512-byte sectors.
    pub capacity_sectors: u64,
}

impl VirtioBlock {
    /// A device for the image at `image_path` whose file is `image_len` bytes long
    /// (the host passes 0 when the file cannot be inspected); the capacity is the
    /// number of whole sectors.
    pub fn new(image_path: String, image_len: u64) -> (b: Self)
        ensures
            b.image_path@ == image_path@,
            b.capacity_sectors == image_len / SECTOR_SIZE,
    {
        VirtioBlock { image_path, capacity_sectors: image_len / SECTOR_SIZE }
    }

    /// Always `Block`.
    pub fn device_type(&self) -> (t: VirtioDeviceType)
        ensures
            t == VirtioDeviceType::Block,
    {
        VirtioDeviceType::Block
    }
}

} // verus!
