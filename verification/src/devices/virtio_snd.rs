//! virtio-snd audio device.
use vstd::prelude::*;

use crate::devices::VirtioDeviceType;

verus! {

/// A virtio-snd device.
pub struct VirtioSnd {
    /// Sample rate in Hz.
    pub sample_rate: u32,
    /// Channel count.
    pub channels: u8,
}

impl VirtioSnd {
    /// 48 kHz stereo.
    pub fn new() -> (d: Self)
        ensures
            d.sample_rate == 48000,
            d.channels == 2,
    {
        VirtioSnd { sample_rate: 48000, channels: 2 }
    }

    /// Always `Sound`.
    pub fn device_type(&self) -> (t: VirtioDeviceType)
        ensures
            t == VirtioDeviceType::Sound,
    {
        VirtioDeviceType::Sound
    }
}

impl Default for VirtioSnd {
    fn default() -> (d: Self)
        ensures
            d.sample_rate == 48000,
            d.channels == 2,
    {
        Self::new()
    }
}

} // verus!
