//! virtio-gpu display device.
use vstd::prelude::*;

use crate::devices::VirtioDeviceType;

verus! {

/// A virtio-gpu device.
pub struct VirtioGpu {
    /// Display width in pixels.
    pub width: u32,
    /// Display height in pixels.
    pub height: u32,
    /// Whether SPICE output is on.
    pub enable_spice: bool,
}

impl VirtioGpu {
    /// A `width` x `height` display with SPICE output on.
    pub fn new(width: u32, height: u32) -> (g: Self)
        ensures
            g.width == width,
            g.height == height,
            g.enable_spice,
    {
        VirtioGpu { width, height, enable_spice: true }
    }

    /// Always `Gpu`.
    pub fn device_type(&self) -> (t: VirtioDeviceType)
        ensures
            t == VirtioDeviceType::Gpu,
    {
        VirtioDeviceType::Gpu
    }
}

} // verus!
