//! Guest-physical memory.
//!
//! The VMM owns one block of host memory per RAM region and maps it at a guest-physical
//! base address; the guest's own page tables are the guest kernel's business.
use vstd::prelude::*;

use crate::error::Error;
use crate::text::{hex_string, to_hex_string};

verus! {

/// Guest pages are 4 KiB.
pub const GUEST_PAGE_SIZE: usize = 4096;

/// One region of guest RAM: `size` bytes seen by the guest at `base_gpa`.
pub struct GuestRam {
    base_gpa: u64,
    mem: Vec<u8>,
    mapped: bool,
}

/// `mem` with `data` written over it from offset `off` on.
pub open spec fn spec_splice(mem: Seq<u8>, off: int, data: Seq<u8>) -> Seq<u8> {
    mem.subrange(0, off) + data + mem.subrange(off + data.len(), mem.len() as int)
}

/// What was written is read back: after a write of `data` at offset `off`, those bytes
/// hold `data`, every other byte keeps its value, and the size is unchanged.
pub proof fn law_read_after_write(mem: Seq<u8>, off: int, data: Seq<u8>)
    requires
        0 <= off,
        off + data.len() <= mem.len(),
    ensures
        spec_splice(mem, off, data).len() == mem.len(),
        spec_splice(mem, off, data).subrange(off, off + data.len()) == data,
        forall|i: int| 0 <= i < mem.len() && !(off <= i < off + data.len())
            ==> #[trigger] spec_splice(mem, off, data)[i] == mem[i],
{
    assert(spec_splice(mem, off, data).subrange(off, off + data.len()) =~= data);
}

/// Whether `len` bytes at `gpa` lie inside `size` bytes at `base` (the start address must
/// lie inside even when `len` is 0).
pub open spec fn spec_fits_in(base: u64, size: int, gpa: u64, len: int) -> bool {
    &&& base <= gpa
    &&& gpa - base < size
    &&& gpa - base + len <= size
}

/// The message of an access outside the region.
pub open spec fn out_of_range_message(gpa: u64) -> Seq<char> {
    "gpa "@ + hex_string(gpa as nat) + " out of range"@
}

impl GuestRam {
    /// Guest-physical base address.
    pub closed spec fn spec_base(&self) -> u64 {
        self.base_gpa
    }

    /// Size in bytes.
    pub open spec fn spec_size(&self) -> nat {
        self.spec_mem().len()
    }

    /// The region's bytes; byte `i` is at guest-physical address `base + i`.
    pub closed spec fn spec_mem(&self) -> Seq<u8> {
        self.mem@
    }

    /// Whether the region is mapped into a hypervisor partition.
    pub closed spec fn spec_mapped(&self) -> bool {
        self.mapped
    }

    /// Whether `len` bytes at `gpa` lie inside the region (the start address must lie
    /// inside even when `len` is 0).
    pub open spec fn spec_fits(&self, gpa: u64, len: nat) -> bool {
        spec_fits_in(self.spec_base(), self.spec_size() as int, gpa, len as int)
    }

    /// Allocates `size` zeroed bytes at `base_gpa`.
    ///
    /// Fails when `size` is zero or not a multiple of 4 KiB, and when a 4 KiB-aligned
    /// block of that size cannot be described (`size > isize::MAX`).
    pub fn allocate(base_gpa: u64, size: usize) -> (r: Result<GuestRam, &'static str>)
        ensures
            size == 0 || size % GUEST_PAGE_SIZE != 0 ==> r == Err::<GuestRam, &'static str>(
                "size must be non-zero and 4KB aligned",
            ),
            size != 0 && size % GUEST_PAGE_SIZE == 0 && size > isize::MAX ==> r == Err::<GuestRam, &'static str>(
                "invalid memory layout",
            ),
            size != 0 && size % GUEST_PAGE_SIZE == 0 && size <= isize::MAX ==> (r matches Ok(ram) && {
                &&& ram.spec_base() == base_gpa
                &&& ram.spec_size() == size
                &&& ram.spec_mem() == Seq::new(size as nat, |i: int| 0u8)
                &&& !ram.spec_mapped()
            }),
    {
        if size == 0 || size % GUEST_PAGE_SIZE != 0 {
            return Err("size must be non-zero and 4KB aligned");
        }
        if size > isize::MAX as usize {
            return Err("invalid memory layout");
        }
        let mem: Vec<u8> = vec![0u8; size];
        assert(mem@ =~= Seq::new(size as nat, |i: int| 0u8));
        Ok(GuestRam { base_gpa, mem, mapped: false })
    }

    /// Guest-physical base address.
    pub fn base_gpa(&self) -> (b: u64)
        ensures
            b == self.spec_base(),
    {
        self.base_gpa
    }

    /// Size in bytes.
    pub fn size(&self) -> (s: usize)
        ensures
            s == self.spec_size(),
    {
        self.mem.len()
    }

    /// The region's bytes.
    pub fn bytes(&self) -> (b: &[u8])
        ensures
            b@ == self.spec_mem(),
    {
        self.mem.as_slice()
    }

    fn fits(&self, gpa: u64, len: usize) -> (b: bool)
        ensures
            b == self.spec_fits(gpa, len as nat),
    {
        let size = self.mem.len();
        gpa >= self.base_gpa && ((gpa - self.base_gpa) as u128) < (size as u128)
            && (gpa - self.base_gpa) as u128 + len as u128 <= size as u128
    }

    /// Copies guest memory at `gpa` into `buf`.
    ///
    /// Fails, leaving `buf` untouched, when the range does not lie inside the region.
    pub fn read(&self, gpa: u64, buf: &mut [u8]) -> (r: Result<(), Error>)
        ensures
            r is Ok <==> self.spec_fits(gpa, old(buf)@.len()),
            r is Ok ==> final(buf)@ == self.spec_mem().subrange(
                gpa - self.spec_base(),
                gpa - self.spec_base() + old(buf)@.len(),
            ),
            r matches Err(e) ==> e is Vmm && e.spec_message() == out_of_range_message(gpa)
                && final(buf)@ == old(buf)@,
    {
        if !self.fits(gpa, buf.len()) {
            let mut m = String::from_str("gpa ");
            m.append(to_hex_string(gpa).as_str());
            m.append(" out of range");
            return Err(Error::Vmm(m));
        }
        let off = (gpa - self.base_gpa) as usize;
        let n = buf.len();
        let mut i: usize = 0;
        while i < n
            invariant
                i <= n,
                n == buf@.len(),
                off + n <= self.mem.len(),
                buf@.len() == old(buf)@.len(),
                forall|j: int| 0 <= j < i ==> buf@[j] == self.mem@[off + j],
            decreases n - i,
        {
            buf[i] = self.mem[off + i];
            i = i + 1;
        }
        assert(buf@ =~= self.spec_mem().subrange(off as int, off + n));
        Ok(())
    }

    /// Copies `buf` into guest memory at `gpa`.
    ///
    /// Fails, leaving the region untouched, when the range does not lie inside it.
    pub fn write(&mut self, gpa: u64, buf: &[u8]) -> (r: Result<(), Error>)
        ensures
            final(self).spec_base() == old(self).spec_base(),
            final(self).spec_size() == old(self).spec_size(),
            final(self).spec_mapped() == old(self).spec_mapped(),
            r is Ok <==> old(self).spec_fits(gpa, buf@.len()),
            r is Ok ==> final(self).spec_mem() == spec_splice(
                old(self).spec_mem(),
                gpa - old(self).spec_base(),
                buf@,
            ),
            r matches Err(e) ==> e is Vmm && e.spec_message() == out_of_range_message(gpa)
                && final(self).spec_mem() == old(self).spec_mem(),
    {
        if !self.fits(gpa, buf.len()) {
            let mut m = String::from_str("gpa ");
            m.append(to_hex_string(gpa).as_str());
            m.append(" out of range");
            return Err(Error::Vmm(m));
        }
        let off = (gpa - self.base_gpa) as usize;
        let n = buf.len();
        let ghost old_mem = self.mem@;
        let mut mem: Vec<u8> = Vec::new();
        std::mem::swap(&mut mem, &mut self.mem);
        let mut i: usize = 0;
        while i < n
            invariant
                i <= n,
                n == buf@.len(),
                off + n <= old_mem.len(),
                mem@.len() == old_mem.len(),
                off + n <= mem.len(),
                forall|j: int| 0 <= j < mem@.len() ==> #[trigger] mem@[j] == if off <= j < off + i {
                    buf@[j - off]
                } else {
                    old_mem[j]
                },
            decreases n - i,
        {
            mem.set(off + i, buf[i]);
            i = i + 1;
        }
        assert(mem@ =~= spec_splice(old_mem, off as int, buf@));
        self.mem = mem;
        Ok(())
    }

    /// Whether the region is mapped into a hypervisor partition.
    pub fn mapped(&self) -> (m: bool)
        ensures
            m == self.spec_mapped(),
    {
        self.mapped
    }

    /// Records whether the region is mapped.
    pub fn set_mapped(&mut self, mapped: bool)
        ensures
            final(self).spec_mapped() == mapped,
            final(self).spec_base() == old(self).spec_base(),
            final(self).spec_size() == old(self).spec_size(),
            final(self).spec_mem() == old(self).spec_mem(),
    {
        self.mapped = mapped;
    }
}

/// The total size of `regions`.
pub open spec fn spec_total_size(regions: Seq<GuestRam>) -> int
    decreases regions.len(),
{
    if regions.len() == 0 {
        0
    } else {
        spec_total_size(regions.drop_last()) + regions.last().spec_size()
    }
}

/// All RAM regions of a guest.
pub struct GuestMemory {
    ram: Vec<GuestRam>,
    total_ram_size: usize,
}

impl GuestMemory {
    /// The recorded total equals the sum of the region sizes.
    pub closed spec fn wf(&self) -> bool {
        self.total_ram_size == spec_total_size(self.ram@)
    }

    /// The regions, in the order they were added.
    pub closed spec fn spec_regions(&self) -> Seq<GuestRam> {
        self.ram@
    }

    /// No regions.
    pub fn new() -> (m: Self)
        ensures
            m.wf(),
            m.spec_regions().len() == 0,
    {
        GuestMemory { ram: Vec::new(), total_ram_size: 0 }
    }

    /// Adds a region.
    pub fn add_ram(&mut self, region: GuestRam)
        requires
            old(self).wf(),
            spec_total_size(old(self).spec_regions()) + region.spec_size() <= usize::MAX,
        ensures
            final(self).wf(),
            final(self).spec_regions() == old(self).spec_regions().push(region),
    {
        let ghost old_ram = self.ram@;
        self.total_ram_size = self.total_ram_size + region.size();
        self.ram.push(region);
        proof {
            assert(self.ram@.drop_last() =~= old_ram);
        }
    }

    /// The regions.
    pub fn ram_regions(&self) -> (r: &[GuestRam])
        ensures
            r@ == self.spec_regions(),
    {
        self.ram.as_slice()
    }

    /// The sum of the sizes of all regions.
    pub fn total_ram_size(&self) -> (t: usize)
        requires
            self.wf(),
        ensures
            t == spec_total_size(self.spec_regions()),
    {
        self.total_ram_size
    }
}

impl Default for GuestMemory {
    fn default() -> (m: Self)
        ensures
            m.wf(),
            m.spec_regions().len() == 0,
    {
        Self::new()
    }
}

} // verus!
