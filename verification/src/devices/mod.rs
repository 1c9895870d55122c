//! VirtIO device models.
//!
//! - [`virtio_mmio`] — MMIO transport and bus
//! - [`virtio_console`] — console (host <-> guest serial)
//! - [`virtio_block`], [`virtio_net`], [`virtio_fs`], [`virtio_gpu`], [`virtio_snd`],
//!   [`virtio_input`] — device descriptions
//! - [`serial`] — 16550A-style serial port buffer
use vstd::prelude::*;

pub mod mmio_laws;
pub mod serial;
pub mod virtio_block;
pub mod virtio_console;
pub mod virtio_fs;
pub mod virtio_gpu;
pub mod virtio_input;
pub mod virtio_mmio;
pub mod virtio_net;
pub mod virtio_snd;

pub use virtio_console::VirtioConsole;
pub use virtio_mmio::{VirtioDevice, VirtioDeviceId, VirtioMmio, VirtioMmioBus};

verus! {

/// VirtIO device types (numbered as in the VirtIO specification).
#[derive(Debug, Clone, Copy, PartialEq, Eq, Structural)]
pub enum VirtioDeviceType {
    /// 1
    Net,
    /// 2
    Block,
    /// 3
    Console,
    /// 4
    Rng,
    /// 5
    Balloon,
    /// 8
    Scsi,
    /// 16
    Gpu,
    /// 17
    Clock,
    /// 18
    Input,
    /// 25
    Sound,
    /// 26
    Fs,
    /// 35
    Rpmsg,
}

impl VirtioDeviceType {
    /// The numeric device type of the VirtIO specification.
    pub open spec fn spec_code(self) -> u32 {
        match self {
            VirtioDeviceType::Net => 1,
            VirtioDeviceType::Block => 2,
            VirtioDeviceType::Console => 3,
            VirtioDeviceType::Rng => 4,
            VirtioDeviceType::Balloon => 5,
            VirtioDeviceType::Scsi => 8,
            VirtioDeviceType::Gpu => 16,
            VirtioDeviceType::Clock => 17,
            VirtioDeviceType::Input => 18,
            VirtioDeviceType::Sound => 25,
            VirtioDeviceType::Fs => 26,
            VirtioDeviceType::Rpmsg => 35,
        }
    }

    /// The numeric device type of the VirtIO specification.
    pub fn code(&self) -> (c: u32)
        ensures
            c == self.spec_code(),
    {
        match self {
            VirtioDeviceType::Net => 1,
            VirtioDeviceType::Block => 2,
            VirtioDeviceType::Console => 3,
            VirtioDeviceType::Rng => 4,
            VirtioDeviceType::Balloon => 5,
            VirtioDeviceType::Scsi => 8,
            VirtioDeviceType::Gpu => 16,
            VirtioDeviceType::Clock => 17,
            VirtioDeviceType::Input => 18,
            VirtioDeviceType::Sound => 25,
            VirtioDeviceType::Fs => 26,
            VirtioDeviceType::Rpmsg => 35,
        }
    }
}

} // verus!
