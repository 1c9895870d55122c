//! Properties of the VirtIO MMIO register file that hold across operations.
use vstd::prelude::*;

use crate::devices::virtio_mmio::{
    high32, low32, spec_read, spec_write, with_high32, with_low32, MmioRead, MmioRegs, VirtioDeviceId, Virtqueue,
    VIRTIO_MMIO_QUEUE_DEVICE_HIGH, VIRTIO_MMIO_QUEUE_DEVICE_LOW, VIRTIO_MMIO_QUEUE_DRIVER_HIGH,
    VIRTIO_MMIO_QUEUE_DRIVER_LOW, VIRTIO_MMIO_QUEUE_NUM,
    VIRTIO_MMIO_DEVICE_FEATURES, VIRTIO_MMIO_DEVICE_FEAT_SEL, VIRTIO_MMIO_DEVICE_ID, VIRTIO_MMIO_MAGIC,
    VIRTIO_MMIO_MAGIC_VALUE, VIRTIO_MMIO_QUEUE_DESC_HIGH, VIRTIO_MMIO_QUEUE_DESC_LOW,
    VIRTIO_MMIO_QUEUE_READY, VIRTIO_MMIO_QUEUE_SEL, VIRTIO_MMIO_STATUS, VIRTIO_MMIO_TRANSPORT_VERSION,
    VIRTIO_MMIO_VENDOR, VIRTIO_MMIO_VENDOR_ID, VIRTIO_MMIO_VERSION,
};

verus! {

/// The magic register reads `"virt"` in every state.
pub proof fn law_magic_is_constant(r: MmioRegs, id: VirtioDeviceId, features: u64)
    ensures
        spec_read(r, VIRTIO_MMIO_MAGIC_VALUE, id, features) == MmioRead::Value(VIRTIO_MMIO_MAGIC),
        spec_read(r, VIRTIO_MMIO_VERSION, id, features) == MmioRead::Value(VIRTIO_MMIO_TRANSPORT_VERSION),
        spec_read(r, VIRTIO_MMIO_VENDOR_ID, id, features) == MmioRead::Value(VIRTIO_MMIO_VENDOR),
        spec_read(r, VIRTIO_MMIO_DEVICE_ID, id, features) == MmioRead::Value(id.spec_code()),
{
}

/// Reading the status register gives back the value last written to it.
pub proof fn law_status_read_after_write(r: MmioRegs, v: u32, id: VirtioDeviceId, features: u64)
    ensures
        spec_read(spec_write(r, VIRTIO_MMIO_STATUS, v), VIRTIO_MMIO_STATUS, id, features)
            == MmioRead::Value(v),
{
}

/// Writing status 0 resets the device: the status becomes 0 and the configuration
/// generation advances by one (modulo 2^32); any other status leaves the generation alone.
pub proof fn law_status_reset_bumps_generation(r: MmioRegs, v: u32)
    ensures
        spec_write(r, VIRTIO_MMIO_STATUS, v).status == v,
        v == 0 ==> spec_write(r, VIRTIO_MMIO_STATUS, v).config_gen == (r.config_gen + 1) % 0x1_0000_0000,
        v != 0 ==> spec_write(r, VIRTIO_MMIO_STATUS, v).config_gen == r.config_gen,
{
}

/// No write changes the number of queues or of driver feature words.
pub proof fn law_write_keeps_shape(r: MmioRegs, offset: u64, v: u32)
    requires
        r.driver_features.len() == 2,
    ensures
        spec_write(r, offset, v).queues.len() == r.queues.len(),
        spec_write(r, offset, v).driver_features.len() == r.driver_features.len(),
{
}

/// After selecting an existing queue `q` and writing `v` to its ready register,
/// the ready register reads 1 when `v` is non-zero and 0 otherwise.
pub proof fn law_queue_ready_read_after_write(r: MmioRegs, q: u32, v: u32, id: VirtioDeviceId, features: u64)
    requires
        (q as int) < r.queues.len(),
    ensures
        spec_read(
            spec_write(spec_write(r, VIRTIO_MMIO_QUEUE_SEL, q), VIRTIO_MMIO_QUEUE_READY, v),
            VIRTIO_MMIO_QUEUE_READY, id, features,
        ) == MmioRead::Value(if v != 0 { 1u32 } else { 0u32 }),
{
}

/// After selecting an existing queue `q`, writing the low then the high half of the
/// descriptor table address sets that address to `hi * 2^32 + lo`, and only queue `q` changes.
pub proof fn law_queue_address_halves(r: MmioRegs, q: u32, lo: u32, hi: u32)
    requires
        (q as int) < r.queues.len(),
    ensures
        ({
            let r1 = spec_write(r, VIRTIO_MMIO_QUEUE_SEL, q);
            let r2 = spec_write(r1, VIRTIO_MMIO_QUEUE_DESC_LOW, lo);
            let r3 = spec_write(r2, VIRTIO_MMIO_QUEUE_DESC_HIGH, hi);
            &&& r3.queues[q as int].desc_addr == hi * 0x1_0000_0000 + lo
            &&& forall|j: int| 0 <= j < r.queues.len() && j != q ==> #[trigger] r3.queues[j] == r.queues[j]
        }),
{
    let r1 = spec_write(r, VIRTIO_MMIO_QUEUE_SEL, q);
    let r2 = spec_write(r1, VIRTIO_MMIO_QUEUE_DESC_LOW, lo);
    let a = r.queues[q as int].desc_addr;
    let a2 = with_low32(a, lo);
    assert(a2 == r2.queues[q as int].desc_addr);
    assert(high32(a) * 0x1_0000_0000 + lo < 0x1_0000_0000_0000_0000) by (nonlinear_arith)
        requires high32(a) < 0x1_0000_0000, lo < 0x1_0000_0000;
    assert(low32(a2) == lo) by (nonlinear_arith)
        requires a2 == high32(a) * 0x1_0000_0000 + lo, lo < 0x1_0000_0000, low32(a2) == a2 % 0x1_0000_0000;
}

/// Acknowledging the interrupt bits of `reason` right after raising them leaves
/// exactly the previously pending bits outside `reason`.
pub proof fn law_ack_clears_raised(pending: u32, reason: u32)
    ensures
        (pending | reason) & !reason == pending & !reason,
{
    assert((pending | reason) & !reason == pending & !reason) by (bit_vector);
}

/// The two 32-bit device feature words, selected by 0 and by any non-zero selector,
/// together make up the 64-bit feature set.
pub proof fn law_feature_words(r: MmioRegs, id: VirtioDeviceId, features: u64)
    ensures
        ({
            let lo = spec_read(spec_write(r, VIRTIO_MMIO_DEVICE_FEAT_SEL, 0), VIRTIO_MMIO_DEVICE_FEATURES, id, features);
            let hi = spec_read(spec_write(r, VIRTIO_MMIO_DEVICE_FEAT_SEL, 1), VIRTIO_MMIO_DEVICE_FEATURES, id, features);
            lo matches MmioRead::Value(l) && hi matches MmioRead::Value(h)
                && l + h * 0x1_0000_0000 == features
        }),
{
}

/// Whether a write at `offset` configures the selected queue: its size, its ready flag,
/// or a half of its descriptor, driver or device address.
pub open spec fn is_queue_config_offset(offset: u64) -> bool {
    ||| offset == VIRTIO_MMIO_QUEUE_NUM
    ||| offset == VIRTIO_MMIO_QUEUE_READY
    ||| offset == VIRTIO_MMIO_QUEUE_DESC_LOW
    ||| offset == VIRTIO_MMIO_QUEUE_DESC_HIGH
    ||| offset == VIRTIO_MMIO_QUEUE_DRIVER_LOW
    ||| offset == VIRTIO_MMIO_QUEUE_DRIVER_HIGH
    ||| offset == VIRTIO_MMIO_QUEUE_DEVICE_LOW
    ||| offset == VIRTIO_MMIO_QUEUE_DEVICE_HIGH
}

proof fn lemma_word(h: int, l: int)
    requires
        0 <= h < 0x1_0000_0000,
        0 <= l < 0x1_0000_0000,
    ensures
        0 <= h * 0x1_0000_0000 + l < 0x1_0000_0000_0000_0000,
        (h * 0x1_0000_0000 + l) % 0x1_0000_0000 == l,
        (h * 0x1_0000_0000 + l) / 0x1_0000_0000 == h,
{
    assert(0 <= h * 0x1_0000_0000 + l < 0x1_0000_0000_0000_0000) by (nonlinear_arith)
        requires 0 <= h < 0x1_0000_0000, 0 <= l < 0x1_0000_0000;
    vstd::arithmetic::div_mod::lemma_fundamental_div_mod_converse(h * 0x1_0000_0000 + l, 0x1_0000_0000, h, l);
}

/// Replacing one half of an address leaves the other half, and replacing both halves
/// gives `hi * 2^32 + lo` whichever half goes first.
proof fn lemma_halves(a: u64, lo: u32, hi: u32)
    ensures
        low32(with_low32(a, lo)) == lo,
        high32(with_low32(a, lo)) == high32(a),
        low32(with_high32(a, hi)) == low32(a),
        high32(with_high32(a, hi)) == hi,
        with_high32(with_low32(a, lo), hi) == hi * 0x1_0000_0000 + lo,
        with_low32(with_high32(a, hi), lo) == hi * 0x1_0000_0000 + lo,
{
    lemma_word(high32(a) as int, lo as int);
    lemma_word(hi as int, low32(a) as int);
    let b = with_low32(a, lo);
    let c = with_high32(a, hi);
    lemma_word(hi as int, low32(b) as int);
    lemma_word(high32(c) as int, lo as int);
}

/// What a queue set-up write of `v` at `offset` does to the selected queue `e`.
pub open spec fn spec_queue_update(offset: u64, v: u32, e: Virtqueue) -> Virtqueue {
    if offset == VIRTIO_MMIO_QUEUE_NUM {
        Virtqueue { size: (v % 0x1_0000) as u16, ..e }
    } else if offset == VIRTIO_MMIO_QUEUE_READY {
        Virtqueue { ready: v != 0, ..e }
    } else if offset == VIRTIO_MMIO_QUEUE_DESC_LOW {
        Virtqueue { desc_addr: with_low32(e.desc_addr, v), ..e }
    } else if offset == VIRTIO_MMIO_QUEUE_DESC_HIGH {
        Virtqueue { desc_addr: with_high32(e.desc_addr, v), ..e }
    } else if offset == VIRTIO_MMIO_QUEUE_DRIVER_LOW {
        Virtqueue { avail_addr: with_low32(e.avail_addr, v), ..e }
    } else if offset == VIRTIO_MMIO_QUEUE_DRIVER_HIGH {
        Virtqueue { avail_addr: with_high32(e.avail_addr, v), ..e }
    } else if offset == VIRTIO_MMIO_QUEUE_DEVICE_LOW {
        Virtqueue { used_addr: with_low32(e.used_addr, v), ..e }
    } else {
        Virtqueue { used_addr: with_high32(e.used_addr, v), ..e }
    }
}

proof fn lemma_config_write(r: MmioRegs, o: u64, v: u32)
    requires
        is_queue_config_offset(o),
    ensures
        spec_write(r, o, v) == (if (r.queue_sel as int) < r.queues.len() {
            MmioRegs { queues: r.queues.update(r.queue_sel as int, spec_queue_update(o, v, r.queues[r.queue_sel as int])), ..r }
        } else {
            r
        }),
{
}

proof fn lemma_queue_update_commute(e: Virtqueue, o1: u64, v1: u32, o2: u64, v2: u32)
    requires
        is_queue_config_offset(o1),
        is_queue_config_offset(o2),
        o1 != o2,
    ensures
        spec_queue_update(o2, v2, spec_queue_update(o1, v1, e)) == spec_queue_update(o1, v1, spec_queue_update(o2, v2, e)),
{
    lemma_halves(e.desc_addr, v1, v2);
    lemma_halves(e.desc_addr, v2, v1);
    lemma_halves(e.avail_addr, v1, v2);
    lemma_halves(e.avail_addr, v2, v1);
    lemma_halves(e.used_addr, v1, v2);
    lemma_halves(e.used_addr, v2, v1);
}

/// The queue set-up writes commute: writing two different configuration registers of
/// the selected queue gives the same registers in either order.
pub proof fn law_queue_config_writes_commute(r: MmioRegs, o1: u64, v1: u32, o2: u64, v2: u32)
    requires
        is_queue_config_offset(o1),
        is_queue_config_offset(o2),
        o1 != o2,
    ensures
        spec_write(spec_write(r, o1, v1), o2, v2) == spec_write(spec_write(r, o2, v2), o1, v1),
{
    let r1 = spec_write(r, o1, v1);
    let r2 = spec_write(r, o2, v2);
    lemma_config_write(r, o1, v1);
    lemma_config_write(r, o2, v2);
    lemma_config_write(r1, o2, v2);
    lemma_config_write(r2, o1, v1);
    let a = spec_write(r1, o2, v2);
    let b = spec_write(r2, o1, v1);
    if (r.queue_sel as int) < r.queues.len() {
        let q = r.queue_sel as int;
        lemma_queue_update_commute(r.queues[q], o1, v1, o2, v2);
        assert(a.queues =~= b.queues);
    }
}

/// The queue that a driver sets up: after selecting an existing queue `q` and writing its
/// size `n`, its three addresses (low and high halves) and ready, the queue has exactly those
/// values and the others are unchanged. By `law_queue_config_writes_commute` the set-up
/// writes may come in any order; a doorbell then hands this queue to the device
/// (`spec_device_write`).
pub proof fn law_queue_setup(r: MmioRegs, q: u32, n: u32, dl: u32, dh: u32, al: u32, ah: u32, ul: u32, uh: u32)
    requires
        (q as int) < r.queues.len(),
    ensures
        ({
            let r1 = spec_write(r, VIRTIO_MMIO_QUEUE_SEL, q);
            let r2 = spec_write(r1, VIRTIO_MMIO_QUEUE_DESC_LOW, dl);
            let r3 = spec_write(r2, VIRTIO_MMIO_QUEUE_DESC_HIGH, dh);
            let r4 = spec_write(r3, VIRTIO_MMIO_QUEUE_DRIVER_LOW, al);
            let r5 = spec_write(r4, VIRTIO_MMIO_QUEUE_DRIVER_HIGH, ah);
            let r6 = spec_write(r5, VIRTIO_MMIO_QUEUE_DEVICE_LOW, ul);
            let r7 = spec_write(r6, VIRTIO_MMIO_QUEUE_DEVICE_HIGH, uh);
            let r8 = spec_write(r7, VIRTIO_MMIO_QUEUE_NUM, n);
            let r9 = spec_write(r8, VIRTIO_MMIO_QUEUE_READY, 1);
            &&& r9.queue_sel == q
            &&& r9.queues.len() == r.queues.len()
            &&& r9.queues[q as int] == (Virtqueue {
                size: (n % 0x1_0000) as u16,
                desc_addr: (dh * 0x1_0000_0000 + dl) as u64,
                avail_addr: (ah * 0x1_0000_0000 + al) as u64,
                used_addr: (uh * 0x1_0000_0000 + ul) as u64,
                ready: true,
                last_avail_idx: r.queues[q as int].last_avail_idx,
            })
            &&& forall|j: int| 0 <= j < r.queues.len() && j != q ==> #[trigger] r9.queues[j] == r.queues[j]
        }),
{
    let e = r.queues[q as int];
    lemma_halves(e.desc_addr, dl, dh);
    lemma_halves(e.avail_addr, al, ah);
    lemma_halves(e.used_addr, ul, uh);
}

} // verus!
