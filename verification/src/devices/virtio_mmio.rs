//! VirtIO MMIO transport (VirtIO 1.2, section 4.2).
//!
//! Every device occupies a 0x200-byte window of guest-physical address space:
//!
//! ```text
//! 0x000 MagicValue      R   0x74726976 ("virt")
//! 0x004 Version         R   2
//! 0x008 DeviceID        R   device type
//! 0x00C VendorID        R   0x554D4551 ("QEMU")
//! 0x010 DeviceFeatures  R   32-bit feature word chosen by DeviceFeatSel
//! 0x014 DeviceFeatSel   W
//! 0x020 DriverFeatures  W   32-bit feature word chosen by DriverFeatSel
//! 0x024 DriverFeatSel   W
//! 0x030 QueueSel        W   selected virtqueue
//! 0x034 QueueNumMax     R
//! 0x038 QueueNum        W
//! 0x044 QueueReady      RW
//! 0x050 QueueNotify     W   doorbell
//! 0x060 InterruptStatus R
//! 0x064 InterruptACK    W
//! 0x070 Status          RW
//! 0x080/0x084 QueueDesc low/high      W
//! 0x090/0x094 QueueDriver low/high    W
//! 0x0A0/0x0A4 QueueDevice low/high    W
//! 0x0FC ConfigGeneration R
//! 0x100 Config[0..0xFF] RW  device-specific configuration space
//! ```
use vstd::prelude::*;

use crate::error::Error;

verus! {

/// Register offset: magic value.
pub const VIRTIO_MMIO_MAGIC_VALUE: u64 = 0x000;
/// Register offset: transport version.
pub const VIRTIO_MMIO_VERSION: u64 = 0x004;
/// Register offset: device type.
pub const VIRTIO_MMIO_DEVICE_ID: u64 = 0x008;
/// Register offset: vendor id.
pub const VIRTIO_MMIO_VENDOR_ID: u64 = 0x00C;
/// Register offset: device feature word.
pub const VIRTIO_MMIO_DEVICE_FEATURES: u64 = 0x010;
/// Register offset: device feature word selector.
pub const VIRTIO_MMIO_DEVICE_FEAT_SEL: u64 = 0x014;
/// Register offset: driver feature word.
pub const VIRTIO_MMIO_DRIVER_FEATURES: u64 = 0x020;
/// Register offset: driver feature word selector.
pub const VIRTIO_MMIO_DRIVER_FEAT_SEL: u64 = 0x024;
/// Register offset: queue selector.
pub const VIRTIO_MMIO_QUEUE_SEL: u64 = 0x030;
/// Register offset: maximum queue size.
pub const VIRTIO_MMIO_QUEUE_NUM_MAX: u64 = 0x034;
/// Register offset: queue size chosen by the driver.
pub const VIRTIO_MMIO_QUEUE_NUM: u64 = 0x038;
/// Register offset: queue ready flag.
pub const VIRTIO_MMIO_QUEUE_READY: u64 = 0x044;
/// Register offset: queue notification doorbell.
pub const VIRTIO_MMIO_QUEUE_NOTIFY: u64 = 0x050;
/// Register offset: interrupt status.
pub const VIRTIO_MMIO_INTERRUPT_STATUS: u64 = 0x060;
/// Register offset: interrupt acknowledge.
pub const VIRTIO_MMIO_INTERRUPT_ACK: u64 = 0x064;
/// Register offset: device status.
pub const VIRTIO_MMIO_STATUS: u64 = 0x070;
/// Register offset: descriptor table address, low half.
pub const VIRTIO_MMIO_QUEUE_DESC_LOW: u64 = 0x080;
/// Register offset: descriptor table address, high half.
pub const VIRTIO_MMIO_QUEUE_DESC_HIGH: u64 = 0x084;
/// Register offset: available ring address, low half.
pub const VIRTIO_MMIO_QUEUE_DRIVER_LOW: u64 = 0x090;
/// Register offset: available ring address, high half.
pub const VIRTIO_MMIO_QUEUE_DRIVER_HIGH: u64 = 0x094;
/// Register offset: used ring address, low half.
pub const VIRTIO_MMIO_QUEUE_DEVICE_LOW: u64 = 0x0A0;
/// Register offset: used ring address, high half.
pub const VIRTIO_MMIO_QUEUE_DEVICE_HIGH: u64 = 0x0A4;
/// Register offset: configuration generation counter.
pub const VIRTIO_MMIO_CONFIG_GENERATION: u64 = 0x0FC;
/// Register offset: start of the device configuration space.
pub const VIRTIO_MMIO_CONFIG: u64 = 0x100;
/// Size of one device's MMIO window.
pub const VIRTIO_MMIO_SIZE: u64 = 0x200;

/// Device status bit: the guest noticed the device.
pub const VIRTIO_STATUS_ACKNOWLEDGE: u32 = 1;
/// Device status bit: the guest has a driver.
pub const VIRTIO_STATUS_DRIVER: u32 = 2;
/// Device status bit: the driver is ready.
pub const VIRTIO_STATUS_DRIVER_OK: u32 = 4;
/// Device status bit: feature negotiation is complete.
pub const VIRTIO_STATUS_FEATURES_OK: u32 = 8;
/// Device status bit: the device needs a reset.
pub const VIRTIO_STATUS_DEVICE_NEEDS_RESET: u32 = 64;
/// Device status bit: the driver gave up on the device.
pub const VIRTIO_STATUS_FAILED: u32 = 128;

/// Descriptor flag: the chain continues in `next`.
pub const VIRTQ_DESC_F_NEXT: u16 = 1;
/// Descriptor flag: the buffer is device-writable.
pub const VIRTQ_DESC_F_WRITE: u16 = 2;
/// Descriptor flag: the buffer holds an indirect descriptor table.
pub const VIRTQ_DESC_F_INDIRECT: u16 = 4;

/// The magic value `"virt"`.
pub const VIRTIO_MMIO_MAGIC: u32 = 0x7472_6976;
/// The transport version implemented here.
pub const VIRTIO_MMIO_TRANSPORT_VERSION: u32 = 2;
/// The vendor id `"QEMU"`.
pub const VIRTIO_MMIO_VENDOR: u32 = 0x554D_4551;
/// Maximum queue size advertised for every existing queue.
pub const VIRTQUEUE_NUM_MAX: u32 = 256;
/// Number of virtqueues a transport is created with.
pub const VIRTIO_MMIO_NUM_QUEUES: usize = 4;

/// VirtIO device types.
#[derive(Debug, Clone, Copy, PartialEq, Eq, Structural)]
pub enum VirtioDeviceId {
    /// Network card (1).
    Net,
    /// Block device (2).
    Block,
    /// Console (3).
    Console,
    /// Entropy source (4).
    Rng,
    /// GPU (16).
    Gpu,
    /// Input device (18).
    Input,
    /// File system (26).
    Fs,
}

impl VirtioDeviceId {
    /// The numeric device id of the VirtIO specification.
    pub open spec fn spec_code(self) -> u32 {
        match self {
            VirtioDeviceId::Net => 1,
            VirtioDeviceId::Block => 2,
            VirtioDeviceId::Console => 3,
            VirtioDeviceId::Rng => 4,
            VirtioDeviceId::Gpu => 16,
            VirtioDeviceId::Input => 18,
            VirtioDeviceId::Fs => 26,
        }
    }

    /// The numeric device id of the VirtIO specification.
    pub fn code(&self) -> (c: u32)
        ensures
            c == self.spec_code(),
    {
        match self {
            VirtioDeviceId::Net => 1,
            VirtioDeviceId::Block => 2,
            VirtioDeviceId::Console => 3,
            VirtioDeviceId::Rng => 4,
            VirtioDeviceId::Gpu => 16,
            VirtioDeviceId::Input => 18,
            VirtioDeviceId::Fs => 26,
        }
    }
}

/// A virtqueue descriptor (16 bytes in guest memory).
#[derive(Debug, Clone, Copy, PartialEq, Eq, Structural)]
pub struct VirtqDesc {
    /// Guest-physical buffer address.
    pub addr: u64,
    /// Buffer length.
    pub len: u32,
    /// `VIRTQ_DESC_F_*` flags.
    pub flags: u16,
    /// Index of the next descriptor when `VIRTQ_DESC_F_NEXT` is set.
    pub next: u16,
}

/// The driver-programmed state of one virtqueue.
#[derive(Debug, Clone, Copy, PartialEq, Eq, Structural)]
pub struct Virtqueue {
    /// Queue size.
    pub size: u16,
    /// Descriptor table GPA.
    pub desc_addr: u64,
    /// Available ring GPA.
    pub avail_addr: u64,
    /// Used ring GPA.
    pub used_addr: u64,
    /// Ready flag.
    pub ready: bool,
    /// Last processed available index.
    pub last_avail_idx: u16,
}

impl Virtqueue {
    /// A queue with every field zero / false.
    pub open spec fn spec_empty() -> Virtqueue {
        Virtqueue { size: 0, desc_addr: 0, avail_addr: 0, used_addr: 0, ready: false, last_avail_idx: 0 }
    }
}

impl Default for Virtqueue {
    fn default() -> (q: Self)
        ensures
            q == Virtqueue::spec_empty(),
    {
        Virtqueue { size: 0, desc_addr: 0, avail_addr: 0, used_addr: 0, ready: false, last_avail_idx: 0 }
    }
}

/// A VirtIO device behind an MMIO transport.
pub trait VirtioDevice {
    /// The device type the device reports.
    spec fn spec_device_id(&self) -> VirtioDeviceId;

    /// The 64-bit feature set the device offers.
    spec fn spec_device_features(&self) -> u64;

    /// The device type.
    fn device_id(&self) -> (id: VirtioDeviceId)
        ensures
            id == self.spec_device_id(),
    ;

    /// The offered features.
    fn device_features(&self) -> (f: u64)
        ensures
            f == self.spec_device_features(),
    ;

    /// The doorbells the device has taken, oldest first: each queue index with the
    /// snapshot of the queues handed over with it.
    spec fn spec_notified(&self) -> Seq<(u32, Seq<Virtqueue>)>;

    /// Handles a doorbell for queue `queue_idx`; `queues` is a snapshot of all queues.
    /// The doorbell is recorded; the device's type and features do not change.
    fn notify(&mut self, queue_idx: u32, queues: &[Virtqueue]) -> (r: Result<(), Error>)
        ensures
            final(self).spec_notified() == old(self).spec_notified().push((queue_idx, queues@)),
            final(self).spec_device_id() == old(self).spec_device_id(),
            final(self).spec_device_features() == old(self).spec_device_features(),
    ;

    /// The value of a `size`-byte read of the configuration space at `offset` (0 for a
    /// device without a configuration space of its own).
    spec fn spec_config_word(&self, offset: u64, size: u8) -> u32;

    /// Reads `size` bytes of the configuration space at `offset`.
    fn read_config(&self, offset: u64, size: u8) -> (v: u32)
        ensures
            v == self.spec_config_word(offset, size),
    ;

    /// Writes the configuration space at `offset`.
    fn write_config(&self, offset: u64, value: u32, size: u8) {
    }
}

/// The value of a register of the transport's own model.
pub struct MmioRegs {
    /// Device status byte.
    pub status: u32,
    /// Selected device feature word.
    pub device_feat_sel: u32,
    /// Selected driver feature word.
    pub driver_feat_sel: u32,
    /// The two driver feature words.
    pub driver_features: Seq<u32>,
    /// Selected queue.
    pub queue_sel: u32,
    /// Queue states.
    pub queues: Seq<Virtqueue>,
    /// Pending interrupt reasons.
    pub interrupt_status: u32,
    /// Configuration generation counter.
    pub config_gen: u32,
}

/// What a guest read of the transport yields.
#[derive(Debug, Clone, Copy, PartialEq, Eq, Structural)]
pub enum MmioRead {
    /// The register's value.
    Value(u32),
    /// A read of the device configuration space at this offset inside it.
    Config(u64),
}

/// What a guest write asks of the device behind the transport.
#[derive(Debug, Clone, Copy, PartialEq, Eq, Structural)]
pub enum MmioWrite {
    /// Nothing beyond the register update.
    Done,
    /// A doorbell for the given queue index.
    Notify(u32),
    /// A write of the device configuration space at this offset inside it.
    Config(u64),
}

/// How a guest write at `offset` of `value` leaves the device behind a transport whose
/// registers were `regs`: a doorbell hands the device the queue index and the queues
/// (recorded in its log, type and features unchanged); any other write leaves it as it was.
pub open spec fn spec_device_write<D: VirtioDevice>(before: D, after: D, regs: MmioRegs, offset: u64, value: u32) -> bool {
    match spec_write_effect(offset, value) {
        MmioWrite::Notify(q) => {
            &&& after.spec_notified() == before.spec_notified().push((q, regs.queues))
            &&& after.spec_device_id() == before.spec_device_id()
            &&& after.spec_device_features() == before.spec_device_features()
        },
        _ => after == before,
    }
}

/// Whether `offset` lies in the device configuration space.
pub open spec fn is_config_offset(offset: u64) -> bool {
    VIRTIO_MMIO_CONFIG <= offset < VIRTIO_MMIO_CONFIG + 0x100
}

/// The low 32 bits of `x`.
pub open spec fn low32(x: u64) -> u32 {
    (x % 0x1_0000_0000) as u32
}

/// The high 32 bits of `x`.
pub open spec fn high32(x: u64) -> u32 {
    (x / 0x1_0000_0000) as u32
}

/// `old` with its low 32 bits replaced by `v`.
pub open spec fn with_low32(old: u64, v: u32) -> u64 {
    (high32(old) * 0x1_0000_0000 + v) as u64
}

/// `old` with its high 32 bits replaced by `v`.
pub open spec fn with_high32(old: u64, v: u32) -> u64 {
    (v * 0x1_0000_0000 + low32(old)) as u64
}

/// The queue register update for the selected queue, or no change when none is selected.
pub open spec fn update_selected(r: MmioRegs, f: spec_fn(Virtqueue) -> Virtqueue) -> MmioRegs {
    if (r.queue_sel as int) < r.queues.len() {
        MmioRegs { queues: r.queues.update(r.queue_sel as int, f(r.queues[r.queue_sel as int])), ..r }
    } else {
        r
    }
}

/// The transport registers after a guest writes `value` at `offset`.
pub open spec fn spec_write(r: MmioRegs, offset: u64, value: u32) -> MmioRegs {
    if offset == VIRTIO_MMIO_DEVICE_FEAT_SEL {
        MmioRegs { device_feat_sel: value, ..r }
    } else if offset == VIRTIO_MMIO_DRIVER_FEAT_SEL {
        MmioRegs { driver_feat_sel: value, ..r }
    } else if offset == VIRTIO_MMIO_DRIVER_FEATURES {
        if r.driver_feat_sel < 2 {
            MmioRegs { driver_features: r.driver_features.update(r.driver_feat_sel as int, value), ..r }
        } else {
            r
        }
    } else if offset == VIRTIO_MMIO_QUEUE_SEL {
        MmioRegs { queue_sel: value, ..r }
    } else if offset == VIRTIO_MMIO_QUEUE_NUM {
        update_selected(r, |q: Virtqueue| Virtqueue { size: (value % 0x1_0000) as u16, ..q })
    } else if offset == VIRTIO_MMIO_QUEUE_READY {
        update_selected(r, |q: Virtqueue| Virtqueue { ready: value != 0, ..q })
    } else if offset == VIRTIO_MMIO_INTERRUPT_ACK {
        MmioRegs { interrupt_status: r.interrupt_status & !value, ..r }
    } else if offset == VIRTIO_MMIO_STATUS {
        MmioRegs {
            status: value,
            config_gen: if value == 0 { ((r.config_gen + 1) % 0x1_0000_0000) as u32 } else { r.config_gen },
            ..r
        }
    } else if offset == VIRTIO_MMIO_QUEUE_DESC_LOW {
        update_selected(r, |q: Virtqueue| Virtqueue { desc_addr: with_low32(q.desc_addr, value), ..q })
    } else if offset == VIRTIO_MMIO_QUEUE_DESC_HIGH {
        update_selected(r, |q: Virtqueue| Virtqueue { desc_addr: with_high32(q.desc_addr, value), ..q })
    } else if offset == VIRTIO_MMIO_QUEUE_DRIVER_LOW {
        update_selected(r, |q: Virtqueue| Virtqueue { avail_addr: with_low32(q.avail_addr, value), ..q })
    } else if offset == VIRTIO_MMIO_QUEUE_DRIVER_HIGH {
        update_selected(r, |q: Virtqueue| Virtqueue { avail_addr: with_high32(q.avail_addr, value), ..q })
    } else if offset == VIRTIO_MMIO_QUEUE_DEVICE_LOW {
        update_selected(r, |q: Virtqueue| Virtqueue { used_addr: with_low32(q.used_addr, value), ..q })
    } else if offset == VIRTIO_MMIO_QUEUE_DEVICE_HIGH {
        update_selected(r, |q: Virtqueue| Virtqueue { used_addr: with_high32(q.used_addr, value), ..q })
    } else {
        r
    }
}

/// What a guest write at `offset` asks of the device.
pub open spec fn spec_write_effect(offset: u64, value: u32) -> MmioWrite {
    if offset == VIRTIO_MMIO_QUEUE_NOTIFY {
        MmioWrite::Notify(value)
    } else if is_config_offset(offset) {
        MmioWrite::Config((offset - VIRTIO_MMIO_CONFIG) as u64)
    } else {
        MmioWrite::Done
    }
}

/// What a guest read at `offset` yields, for a device of type `id` offering `features`.
pub open spec fn spec_read(r: MmioRegs, offset: u64, id: VirtioDeviceId, features: u64) -> MmioRead {
    let q = r.queue_sel as int;
    if offset == VIRTIO_MMIO_MAGIC_VALUE {
        MmioRead::Value(VIRTIO_MMIO_MAGIC)
    } else if offset == VIRTIO_MMIO_VERSION {
        MmioRead::Value(VIRTIO_MMIO_TRANSPORT_VERSION)
    } else if offset == VIRTIO_MMIO_DEVICE_ID {
        MmioRead::Value(id.spec_code())
    } else if offset == VIRTIO_MMIO_VENDOR_ID {
        MmioRead::Value(VIRTIO_MMIO_VENDOR)
    } else if offset == VIRTIO_MMIO_DEVICE_FEATURES {
        MmioRead::Value(if r.device_feat_sel == 0 { low32(features) } else { high32(features) })
    } else if offset == VIRTIO_MMIO_QUEUE_NUM_MAX {
        MmioRead::Value(if q < r.queues.len() { VIRTQUEUE_NUM_MAX } else { 0 })
    } else if offset == VIRTIO_MMIO_QUEUE_READY {
        MmioRead::Value(if q < r.queues.len() && r.queues[q].ready { 1 } else { 0 })
    } else if offset == VIRTIO_MMIO_INTERRUPT_STATUS {
        MmioRead::Value(r.interrupt_status)
    } else if offset == VIRTIO_MMIO_STATUS {
        MmioRead::Value(r.status)
    } else if offset == VIRTIO_MMIO_CONFIG_GENERATION {
        MmioRead::Value(r.config_gen)
    } else if is_config_offset(offset) {
        MmioRead::Config((offset - VIRTIO_MMIO_CONFIG) as u64)
    } else {
        MmioRead::Value(0)
    }
}

proof fn lemma_low_high(x: u64)
    ensures
        low32(x) as u64 == x & 0xFFFF_FFFF,
        high32(x) as u64 == x >> 32,
        with_low32(x, 0) == x & 0xFFFF_FFFF_0000_0000,
{
    assert(x % 0x1_0000_0000 == x & 0xFFFF_FFFF) by (bit_vector);
    assert(x / 0x1_0000_0000 == x >> 32) by (bit_vector);
    assert((x / 0x1_0000_0000) * 0x1_0000_0000 == x & 0xFFFF_FFFF_0000_0000) by (bit_vector);
}

proof fn lemma_replace_low(old: u64, v: u32)
    ensures
        (old & 0xFFFF_FFFF_0000_0000) | (v as u64) == with_low32(old, v),
{
    assert((old & 0xFFFF_FFFF_0000_0000) | (v as u64)
        == (old / 0x1_0000_0000) * 0x1_0000_0000 + v) by (bit_vector);
}

proof fn lemma_replace_high(old: u64, v: u32)
    ensures
        (old & 0x0000_0000_FFFF_FFFF) | ((v as u64) << 32) == with_high32(old, v),
{
    assert((old & 0x0000_0000_FFFF_FFFF) | ((v as u64) << 32)
        == (v as u64) * 0x1_0000_0000 + old % 0x1_0000_0000) by (bit_vector);
}

/// The registers of one transport instance.
pub struct VirtioMmioState {
    status: u32,
    device_feat_sel: u32,
    driver_feat_sel: u32,
    driver_features: [u32; 2],
    queue_sel: u32,
    queues: Vec<Virtqueue>,
    interrupt_status: u32,
    config_gen: u32,
}

impl View for VirtioMmioState {
    type V = MmioRegs;

    closed spec fn view(&self) -> MmioRegs {
        MmioRegs {
            status: self.status,
            device_feat_sel: self.device_feat_sel,
            driver_feat_sel: self.driver_feat_sel,
            driver_features: self.driver_features@,
            queue_sel: self.queue_sel,
            queues: self.queues@,
            interrupt_status: self.interrupt_status,
            config_gen: self.config_gen,
        }
    }
}

/// The registers right after reset: everything zero, `n` empty queues.
pub open spec fn spec_initial_regs(n: nat) -> MmioRegs {
    MmioRegs {
        status: 0,
        device_feat_sel: 0,
        driver_feat_sel: 0,
        driver_features: seq![0u32, 0u32],
        queue_sel: 0,
        queues: Seq::new(n, |i: int| Virtqueue::spec_empty()),
        interrupt_status: 0,
        config_gen: 0,
    }
}

impl VirtioMmioState {
    /// Fresh registers with `VIRTIO_MMIO_NUM_QUEUES` empty queues.
    pub fn new() -> (s: Self)
        ensures
            s@ == spec_initial_regs(VIRTIO_MMIO_NUM_QUEUES as nat),
            s@.driver_features.len() == 2,
    {
        let mut queues: Vec<Virtqueue> = Vec::new();
        let mut i: usize = 0;
        while i < VIRTIO_MMIO_NUM_QUEUES
            invariant
                i <= VIRTIO_MMIO_NUM_QUEUES,
                queues@ == Seq::new(i as nat, |j: int| Virtqueue::spec_empty()),
            decreases VIRTIO_MMIO_NUM_QUEUES - i,
        {
            queues.push(Virtqueue::default());
            i = i + 1;
        }
        let s = VirtioMmioState {
            status: 0,
            device_feat_sel: 0,
            driver_feat_sel: 0,
            driver_features: [0u32, 0u32],
            queue_sel: 0,
            queues,
            interrupt_status: 0,
            config_gen: 0,
        };
        assert(s@.driver_features =~= seq![0u32, 0u32]);
        s
    }

    /// The current register values.
    pub fn regs_queue_count(&self) -> (n: usize)
        ensures
            n == self@.queues.len(),
    {
        self.queues.len()
    }

    /// A snapshot of all queues.
    pub fn queues_snapshot(&self) -> (v: Vec<Virtqueue>)
        ensures
            v@ == self@.queues,
    {
        let mut v: Vec<Virtqueue> = Vec::new();
        let mut i: usize = 0;
        while i < self.queues.len()
            invariant
                i <= self.queues@.len(),
                v@ == self.queues@.take(i as int),
            decreases self.queues@.len() - i,
        {
            v.push(self.queues[i]);
            i = i + 1;
            assert(v@ =~= self.queues@.take(i as int));
        }
        assert(self.queues@.take(self.queues@.len() as int) =~= self.queues@);
        v
    }

    /// Evaluates a guest read at `offset` for a device of type `id` offering `features`.
    pub fn read_register(&self, offset: u64, id: VirtioDeviceId, features: u64) -> (r: MmioRead)
        ensures
            r == spec_read(self@, offset, id, features),
    {
        let q = self.queue_sel as usize;
        if offset == VIRTIO_MMIO_MAGIC_VALUE {
            MmioRead::Value(VIRTIO_MMIO_MAGIC)
        } else if offset == VIRTIO_MMIO_VERSION {
            MmioRead::Value(VIRTIO_MMIO_TRANSPORT_VERSION)
        } else if offset == VIRTIO_MMIO_DEVICE_ID {
            MmioRead::Value(id.code())
        } else if offset == VIRTIO_MMIO_VENDOR_ID {
            MmioRead::Value(VIRTIO_MMIO_VENDOR)
        } else if offset == VIRTIO_MMIO_DEVICE_FEATURES {
            proof {
                lemma_low_high(features);
            }
            if self.device_feat_sel == 0 {
                MmioRead::Value((features & 0xFFFF_FFFF) as u32)
            } else {
                MmioRead::Value((features >> 32) as u32)
            }
        } else if offset == VIRTIO_MMIO_QUEUE_NUM_MAX {
            if q < self.queues.len() {
                MmioRead::Value(VIRTQUEUE_NUM_MAX)
            } else {
                MmioRead::Value(0)
            }
        } else if offset == VIRTIO_MMIO_QUEUE_READY {
            if q < self.queues.len() && self.queues[q].ready {
                MmioRead::Value(1)
            } else {
                MmioRead::Value(0)
            }
        } else if offset == VIRTIO_MMIO_INTERRUPT_STATUS {
            MmioRead::Value(self.interrupt_status)
        } else if offset == VIRTIO_MMIO_STATUS {
            MmioRead::Value(self.status)
        } else if offset == VIRTIO_MMIO_CONFIG_GENERATION {
            MmioRead::Value(self.config_gen)
        } else if offset >= VIRTIO_MMIO_CONFIG && offset < VIRTIO_MMIO_CONFIG + 0x100 {
            MmioRead::Config(offset - VIRTIO_MMIO_CONFIG)
        } else {
            MmioRead::Value(0)
        }
    }

    /// Applies a guest write of `value` at `offset` and says what the device must do.
    pub fn write_register(&mut self, offset: u64, value: u32) -> (e: MmioWrite)
        ensures
            final(self)@ == spec_write(old(self)@, offset, value),
            e == spec_write_effect(offset, value),
    {
        let q = self.queue_sel as usize;
        let qok = q < self.queues.len();
        if offset == VIRTIO_MMIO_DEVICE_FEAT_SEL {
            self.device_feat_sel = value;
        } else if offset == VIRTIO_MMIO_DRIVER_FEAT_SEL {
            self.driver_feat_sel = value;
        } else if offset == VIRTIO_MMIO_DRIVER_FEATURES {
            let sel = self.driver_feat_sel as usize;
            if sel < 2 {
                self.driver_features[sel] = value;
            }
        } else if offset == VIRTIO_MMIO_QUEUE_SEL {
            self.queue_sel = value;
        } else if offset == VIRTIO_MMIO_QUEUE_NUM {
            if qok {
                let mut e = self.queues[q];
                e.size = (value & 0xFFFF) as u16;
                assert(value & 0xFFFF == value % 0x1_0000) by (bit_vector);
                self.queues.set(q, e);
            }
        } else if offset == VIRTIO_MMIO_QUEUE_READY {
            if qok {
                let mut e = self.queues[q];
                e.ready = value != 0;
                self.queues.set(q, e);
            }
        } else if offset == VIRTIO_MMIO_QUEUE_NOTIFY {
            return MmioWrite::Notify(value);
        } else if offset == VIRTIO_MMIO_INTERRUPT_ACK {
            self.interrupt_status = self.interrupt_status & !value;
        } else if offset == VIRTIO_MMIO_STATUS {
            self.status = value;
            if value == 0 {
                self.config_gen = if self.config_gen == u32::MAX { 0 } else { self.config_gen + 1 };
            }
        } else if offset == VIRTIO_MMIO_QUEUE_DESC_LOW {
            if qok {
                let mut e = self.queues[q];
                proof { lemma_replace_low(e.desc_addr, value); }
                e.desc_addr = (e.desc_addr & 0xFFFF_FFFF_0000_0000) | value as u64;
                self.queues.set(q, e);
            }
        } else if offset == VIRTIO_MMIO_QUEUE_DESC_HIGH {
            if qok {
                let mut e = self.queues[q];
                proof { lemma_replace_high(e.desc_addr, value); }
                e.desc_addr = (e.desc_addr & 0x0000_0000_FFFF_FFFF) | ((value as u64) << 32);
                self.queues.set(q, e);
            }
        } else if offset == VIRTIO_MMIO_QUEUE_DRIVER_LOW {
            if qok {
                let mut e = self.queues[q];
                proof { lemma_replace_low(e.avail_addr, value); }
                e.avail_addr = (e.avail_addr & 0xFFFF_FFFF_0000_0000) | value as u64;
                self.queues.set(q, e);
            }
        } else if offset == VIRTIO_MMIO_QUEUE_DRIVER_HIGH {
            if qok {
                let mut e = self.queues[q];
                proof { lemma_replace_high(e.avail_addr, value); }
                e.avail_addr = (e.avail_addr & 0x0000_0000_FFFF_FFFF) | ((value as u64) << 32);
                self.queues.set(q, e);
            }
        } else if offset == VIRTIO_MMIO_QUEUE_DEVICE_LOW {
            if qok {
                let mut e = self.queues[q];
                proof { lemma_replace_low(e.used_addr, value); }
                e.used_addr = (e.used_addr & 0xFFFF_FFFF_0000_0000) | value as u64;
                self.queues.set(q, e);
            }
        } else if offset == VIRTIO_MMIO_QUEUE_DEVICE_HIGH {
            if qok {
                let mut e = self.queues[q];
                proof { lemma_replace_high(e.used_addr, value); }
                e.used_addr = (e.used_addr & 0x0000_0000_FFFF_FFFF) | ((value as u64) << 32);
                self.queues.set(q, e);
            }
        } else if offset >= VIRTIO_MMIO_CONFIG && offset < VIRTIO_MMIO_CONFIG + 0x100 {
            return MmioWrite::Config(offset - VIRTIO_MMIO_CONFIG);
        }
        proof {
            assert(self@ =~= spec_write(old(self)@, offset, value));
        }
        MmioWrite::Done
    }

    /// Sets the interrupt bits of `reason`.
    pub fn raise_interrupt(&mut self, reason: u32)
        ensures
            final(self)@ == (MmioRegs { interrupt_status: old(self)@.interrupt_status | reason, ..old(self)@ }),
    {
        self.interrupt_status = self.interrupt_status | reason;
    }
}

/// A VirtIO MMIO transport: one device and its register file.
pub struct VirtioMmio<D: VirtioDevice> {
    /// Guest-physical base address of the device's window.
    pub base_addr: u64,
    device: D,
    state: VirtioMmioState,
}

impl<D: VirtioDevice> VirtioMmio<D> {
    /// The transport registers.
    pub closed spec fn regs(&self) -> MmioRegs {
        self.state@
    }

    /// The window base address.
    pub closed spec fn spec_base(&self) -> u64 {
        self.base_addr
    }

    /// The device behind the transport.
    pub closed spec fn spec_device(&self) -> D {
        self.device
    }

    /// A transport at `base_addr` for `device`, with freshly reset registers.
    pub fn new(base_addr: u64, device: D) -> (m: Self)
        ensures
            m.spec_base() == base_addr,
            m.spec_device() == device,
            m.regs() == spec_initial_regs(VIRTIO_MMIO_NUM_QUEUES as nat),
    {
        VirtioMmio { base_addr, device, state: VirtioMmioState::new() }
    }

    /// The device behind the transport.
    pub fn device(&self) -> (d: &D)
        ensures
            *d == self.spec_device(),
    {
        &self.device
    }

    /// Handles a guest read of `size` bytes at `offset` inside the window.
    ///
    /// Configuration-space reads go to the device; every other offset is answered by
    /// the transport as `spec_read` says.
    pub fn mmio_read(&self, offset: u64, size: u8) -> (v: u32)
        ensures
            spec_read(self.regs(), offset, self.spec_device().spec_device_id(),
                self.spec_device().spec_device_features()) matches MmioRead::Value(x) ==> v == x,
            spec_read(self.regs(), offset, self.spec_device().spec_device_id(),
                self.spec_device().spec_device_features()) matches MmioRead::Config(o)
                ==> v == self.spec_device().spec_config_word(o, size),
    {
        let id = self.device.device_id();
        let features = self.device.device_features();
        match self.state.read_register(offset, id, features) {
            MmioRead::Value(x) => x,
            MmioRead::Config(o) => self.device.read_config(o, size),
        }
    }

    /// Handles a guest write of `value` (`size` bytes) at `offset` inside the window.
    ///
    /// The registers change as `spec_write` says; a doorbell is handed to the device's
    /// `notify` with a snapshot of the queues (its error is dropped), and a
    /// configuration-space write goes to the device's `write_config`
    /// (see `spec_device_write`).
    pub fn mmio_write(&mut self, offset: u64, value: u32, size: u8)
        ensures
            final(self).regs() == spec_write(old(self).regs(), offset, value),
            final(self).spec_base() == old(self).spec_base(),
            spec_device_write(old(self).spec_device(), final(self).spec_device(), old(self).regs(), offset, value),
    {
        match self.state.write_register(offset, value) {
            MmioWrite::Done => {},
            MmioWrite::Notify(queue) => {
                let queues = self.state.queues_snapshot();
                let _ = self.device.notify(queue, queues.as_slice());
            },
            MmioWrite::Config(o) => {
                self.device.write_config(o, value, size);
            },
        }
    }

    /// Raises the interrupt bits of `reason`.
    pub fn raise_interrupt(&mut self, reason: u32)
        ensures
            final(self).regs() == (MmioRegs {
                interrupt_status: old(self).regs().interrupt_status | reason,
                ..old(self).regs()
            }),
            final(self).spec_base() == old(self).spec_base(),
            final(self).spec_device() == old(self).spec_device(),
    {
        self.state.raise_interrupt(reason);
    }
}

/// Guest-physical base of the MMIO region shared by all transports.
pub const VIRTIO_MMIO_BASE_ADDR: u64 = 0xA000_0000;

/// The window base of the `i`-th device on the bus.
pub open spec fn device_base(i: int) -> int {
    VIRTIO_MMIO_BASE_ADDR + i * VIRTIO_MMIO_SIZE
}

/// The bus holding all transports, laid out one window after the other.
pub struct VirtioMmioBus<D: VirtioDevice> {
    devices: Vec<VirtioMmio<D>>,
}

impl<D: VirtioDevice> VirtioMmioBus<D> {
    /// MMIO region base.
    pub const BASE_ADDR: u64 = VIRTIO_MMIO_BASE_ADDR;
    /// Size of each device window.
    pub const DEVICE_SIZE: u64 = VIRTIO_MMIO_SIZE;

    /// The transports, in the order they were added.
    pub closed spec fn spec_devices(&self) -> Seq<VirtioMmio<D>> {
        self.devices@
    }

    /// Device `i` sits at window `i` and the whole region fits in the address space.
    pub open spec fn wf(&self) -> bool {
        &&& forall|i: int| 0 <= i < self.spec_devices().len()
            ==> (#[trigger] self.spec_devices()[i]).spec_base() == device_base(i)
        &&& device_base(self.spec_devices().len() as int) <= u64::MAX
    }

    /// Whether `gpa` falls in some device's window.
    pub open spec fn spec_contains(&self, gpa: u64) -> bool {
        &&& self.spec_devices().len() > 0
        &&& VIRTIO_MMIO_BASE_ADDR <= gpa
        &&& gpa < device_base(self.spec_devices().len() as int)
    }

    /// The index of the window that holds `gpa`.
    pub open spec fn spec_index_of(gpa: u64) -> int {
        (gpa - VIRTIO_MMIO_BASE_ADDR) / (VIRTIO_MMIO_SIZE as int)
    }

    /// An empty bus.
    pub fn new() -> (b: Self)
        ensures
            b.wf(),
            b.spec_devices().len() == 0,
    {
        VirtioMmioBus { devices: Vec::new() }
    }

    /// Adds a device in the next free window and returns that window's base.
    pub fn add_device(&mut self, device: D) -> (base: u64)
        requires
            old(self).wf(),
            device_base(old(self).spec_devices().len() + 1int) <= u64::MAX,
        ensures
            final(self).wf(),
            base == device_base(old(self).spec_devices().len() as int),
            final(self).spec_devices().len() == old(self).spec_devices().len() + 1,
            final(self).spec_devices().take(old(self).spec_devices().len() as int) == old(self).spec_devices(),
            final(self).spec_devices().last().spec_base() == base,
            final(self).spec_devices().last().spec_device() == device,
            final(self).spec_devices().last().regs() == spec_initial_regs(VIRTIO_MMIO_NUM_QUEUES as nat),
    {
        let idx = self.devices.len() as u64;
        let base = Self::BASE_ADDR + idx * Self::DEVICE_SIZE;
        self.devices.push(VirtioMmio::new(base, device));
        proof {
            assert(self.spec_devices().take(old(self).spec_devices().len() as int) =~= old(self).spec_devices());
        }
        base
    }

    proof fn lemma_window(&self, gpa: u64)
        requires
            self.wf(),
            self.spec_contains(gpa),
        ensures
            0 <= Self::spec_index_of(gpa) < self.spec_devices().len(),
            device_base(Self::spec_index_of(gpa)) <= gpa < device_base(Self::spec_index_of(gpa)) + VIRTIO_MMIO_SIZE,
    {
        let x = gpa - VIRTIO_MMIO_BASE_ADDR;
        vstd::arithmetic::div_mod::lemma_fundamental_div_mod(x as int, VIRTIO_MMIO_SIZE as int);
        let n = self.spec_devices().len() as int;
        if Self::spec_index_of(gpa) >= n {
            vstd::arithmetic::mul::lemma_mul_inequality(n, Self::spec_index_of(gpa), VIRTIO_MMIO_SIZE as int);
        }
    }

    /// Whether `gpa` falls in some device's window.
    pub fn contains(&self, gpa: u64) -> (b: bool)
        requires
            self.wf(),
        ensures
            b == self.spec_contains(gpa),
    {
        !self.devices.is_empty() && gpa >= Self::BASE_ADDR
            && gpa < Self::BASE_ADDR + self.devices.len() as u64 * Self::DEVICE_SIZE
    }

    /// Handles a guest read at `gpa`: `None` outside every window, otherwise the
    /// answer of the device whose window holds `gpa`.
    pub fn read(&self, gpa: u64, size: u8) -> (r: Option<u32>)
        requires
            self.wf(),
        ensures
            r is Some <==> self.spec_contains(gpa),
            r matches Some(v) ==> {
                let d = self.spec_devices()[Self::spec_index_of(gpa)];
                &&& spec_read(d.regs(), (gpa - d.spec_base()) as u64, d.spec_device().spec_device_id(),
                    d.spec_device().spec_device_features()) matches MmioRead::Value(x) ==> v == x
                &&& spec_read(d.regs(), (gpa - d.spec_base()) as u64, d.spec_device().spec_device_id(),
                    d.spec_device().spec_device_features()) matches MmioRead::Config(o)
                    ==> v == d.spec_device().spec_config_word(o, size)
            },
    {
        if !self.contains(gpa) {
            return None;
        }
        proof { self.lemma_window(gpa); }
        let iu: u64 = (gpa - Self::BASE_ADDR) / Self::DEVICE_SIZE;
        assert(iu == Self::spec_index_of(gpa));
        assert(iu < self.devices.len());
        let i = iu as usize;
        let dev = &self.devices[i];
        Some(dev.mmio_read(gpa - dev.base_addr, size))
    }

    /// Handles a guest write at `gpa`: `false` and no change outside every window,
    /// otherwise the device whose window holds `gpa` takes the write.
    pub fn write(&mut self, gpa: u64, value: u32, size: u8) -> (b: bool)
        requires
            old(self).wf(),
        ensures
            final(self).wf(),
            b == old(self).spec_contains(gpa),
            final(self).spec_devices().len() == old(self).spec_devices().len(),
            forall|j: int| 0 <= j < final(self).spec_devices().len() && (!b || j != Self::spec_index_of(gpa))
                ==> #[trigger] final(self).spec_devices()[j] == old(self).spec_devices()[j],
            b ==> {
                let i = Self::spec_index_of(gpa);
                let d = old(self).spec_devices()[i];
                &&& final(self).spec_devices()[i].regs() == spec_write(d.regs(), (gpa - d.spec_base()) as u64, value)
                &&& final(self).spec_devices()[i].spec_base() == d.spec_base()
                &&& spec_device_write(d.spec_device(), final(self).spec_devices()[i].spec_device(), d.regs(),
                    (gpa - d.spec_base()) as u64, value)
            },
    {
        if !self.contains(gpa) {
            return false;
        }
        proof { self.lemma_window(gpa); }
        let iu: u64 = (gpa - Self::BASE_ADDR) / Self::DEVICE_SIZE;
        assert(iu == Self::spec_index_of(gpa));
        assert(iu < self.devices.len());
        let i = iu as usize;
        let base = self.devices[i].base_addr;
        self.devices[i].mmio_write(gpa - base, value, size);
        true
    }

    /// The transports, in window order.
    pub fn devices(&self) -> (d: &[VirtioMmio<D>])
        ensures
            d@ == self.spec_devices(),
    {
        self.devices.as_slice()
    }
}

} // verus!
