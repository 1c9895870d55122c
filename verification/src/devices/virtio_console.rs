//! VirtIO console: the host side of the host <-> guest serial channel.
//!
//! The console uses two virtqueues: queue 0 (receiveq, guest to host) and
//! queue 1 (transmitq, host to guest).
use vstd::prelude::*;

use crate::devices::virtio_mmio::{VirtioDevice, VirtioDeviceId, Virtqueue};
use crate::error::Error;

verus! {

/// Feature bit: the console reports its size.
pub const VIRTIO_CONSOLE_F_SIZE: u64 = 1;
/// Feature bit: the console has several ports.
pub const VIRTIO_CONSOLE_F_MULTIPORT: u64 = 2;

/// The console configuration space.
#[derive(Debug, Clone, Copy, PartialEq, Eq, Structural)]
pub struct ConsoleConfig {
    /// Columns.
    pub cols: u16,
    /// Rows.
    pub rows: u16,
    /// Maximum number of ports.
    pub max_nr_ports: u32,
    /// Emergency write register.
    pub emerg_wr: u32,
}

/// The host side of a VirtIO console.
pub struct VirtioConsole {
    config: ConsoleConfig,
    notified: Ghost<Seq<(u32, Seq<Virtqueue>)>>,
}

/// The 32-bit configuration word of `config` at byte offset `offset`.
pub open spec fn console_config_word(config: ConsoleConfig, offset: u64) -> u32 {
    if offset == 0 {
        (config.cols + config.rows * 0x1_0000) as u32
    } else if offset == 4 {
        config.max_nr_ports
    } else {
        0
    }
}

impl VirtioConsole {
    /// The console's configuration space.
    pub closed spec fn spec_config(&self) -> ConsoleConfig {
        self.config
    }

    /// A console whose configuration space is all zero, with no doorbell taken yet.
    pub fn new() -> (c: Self)
        ensures
            c.spec_config() == (ConsoleConfig { cols: 0, rows: 0, max_nr_ports: 0, emerg_wr: 0 }),
            c.spec_notified() == Seq::<(u32, Seq<Virtqueue>)>::empty(),
    {
        VirtioConsole {
            config: ConsoleConfig { cols: 0, rows: 0, max_nr_ports: 0, emerg_wr: 0 },
            notified: Ghost(Seq::empty()),
        }
    }

    /// A console with the given configuration space, with no doorbell taken yet.
    pub fn with_config(config: ConsoleConfig) -> (c: Self)
        ensures
            c.spec_config() == config,
            c.spec_notified() == Seq::<(u32, Seq<Virtqueue>)>::empty(),
    {
        VirtioConsole { config, notified: Ghost(Seq::empty()) }
    }
}

impl VirtioDevice for VirtioConsole {
    open spec fn spec_device_id(&self) -> VirtioDeviceId {
        VirtioDeviceId::Console
    }

    open spec fn spec_device_features(&self) -> u64 {
        VIRTIO_CONSOLE_F_SIZE
    }

    open spec fn spec_config_word(&self, offset: u64, size: u8) -> u32 {
        console_config_word(self.spec_config(), offset)
    }

    closed spec fn spec_notified(&self) -> Seq<(u32, Seq<Virtqueue>)> {
        self.notified@
    }

    fn device_id(&self) -> (id: VirtioDeviceId) {
        VirtioDeviceId::Console
    }

    fn device_features(&self) -> (f: u64) {
        VIRTIO_CONSOLE_F_SIZE
    }

    /// Doorbells are accepted and recorded; data moves through the host channels, not
    /// here, so the configuration space does not change.
    fn notify(&mut self, queue_idx: u32, queues: &[Virtqueue]) -> (r: Result<(), Error>)
        ensures
            r is Ok,
            final(self).spec_config() == old(self).spec_config(),
    {
        self.notified = Ghost(self.notified@.push((queue_idx, queues@)));
        Ok(())
    }

    /// Offset 0 holds `cols | rows << 16`, offset 4 holds `max_nr_ports`, others read 0.
    fn read_config(&self, offset: u64, size: u8) -> (v: u32)
        ensures
            v == console_config_word(self.spec_config(), offset),
    {
        if offset == 0 {
            let c = self.config.cols as u32;
            let r = self.config.rows as u32;
            assert(c | (r << 16) == c + r * 0x1_0000) by (bit_vector)
                requires c < 0x1_0000, r < 0x1_0000;
            c | (r << 16)
        } else if offset == 4 {
            self.config.max_nr_ports
        } else {
            0
        }
    }
}

} // verus!
