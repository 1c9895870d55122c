//! A VMM instance: configuration, guest RAM, the VirtIO MMIO bus and the boot sequence.
use vstd::prelude::*;

use crate::devices::virtio_mmio::{VirtioMmioBus, spec_initial_regs, device_base, VIRTIO_MMIO_NUM_QUEUES};
use crate::devices::VirtioConsole;
use vstd::string::StringSliceAdditionalSpecFns;

use crate::error::Error;
use crate::vmm::loader::{
    lemma_apply_writes_concat, spec_apply_writes, spec_bzimage_check, spec_bzimage_error, spec_gdt_bytes,
    spec_linux64_regs, spec_load_writes, spec_kernel_overlaps_initrd, kernel_overlaps_initrd_message, write_gdt, BzImageCheck, InitialRegs, KernelLoader, RamWrite,
    BOOT_PARAMS_ADDR, GDT_ADDR, KERNEL_ADDR,
};
use crate::vmm::memory::{out_of_range_message, GuestRam};
use crate::vmm::{VmConfig, VmState};

verus! {

/// The command line used when the configuration has none.
pub const DEFAULT_CMDLINE: &'static str = "console=hvc0 root=/dev/vda rw init=/sbin/init";

/// One VM: its configuration, guest RAM, VirtIO MMIO bus (holding the console) and state.
pub struct Vmm {
    /// VM configuration.
    pub config: VmConfig,
    state: VmState,
    /// Guest RAM, mapped at guest-physical address 0.
    pub ram: GuestRam,
    /// The VirtIO MMIO bus.
    pub mmio_bus: VirtioMmioBus<VirtioConsole>,
    /// MMIO base of the console.
    pub console_base: u64,
}

/// The bytes of the command line a VM boots with.
pub open spec fn spec_cmdline_bytes(config: VmConfig) -> Seq<u8> {
    match config.cmdline {
        Some(c) => vstd::utf8::encode_utf8(c@),
        None => vstd::utf8::encode_utf8(DEFAULT_CMDLINE@),
    }
}

impl Vmm {
    /// The lifecycle state.
    pub closed spec fn spec_state(&self) -> VmState {
        self.state
    }

    /// The configuration.
    pub closed spec fn spec_config(&self) -> VmConfig {
        self.config
    }

    /// Guest RAM.
    pub closed spec fn spec_ram(&self) -> GuestRam {
        self.ram
    }

    /// The MMIO bus.
    pub closed spec fn spec_bus(&self) -> VirtioMmioBus<VirtioConsole> {
        self.mmio_bus
    }

    /// MMIO base of the console.
    pub closed spec fn spec_console_base(&self) -> u64 {
        self.console_base
    }

    /// Creates a VM: allocates `memory_mb` MiB of zeroed RAM at GPA 0 and puts a console on a
    /// fresh MMIO bus; fails when the RAM cannot be allocated.
    pub fn new(config: VmConfig) -> (r: Result<Self, Error>)
        requires
            config.memory_mb * 0x10_0000 <= usize::MAX,
        ensures
            (config.memory_mb == 0 || config.memory_mb * 0x10_0000 > isize::MAX) <==> r is Err,
            r matches Err(e) ==> e is Vmm,
            r matches Ok(v) ==> {
                &&& v.spec_config() == config
                &&& v.spec_state() == VmState::Created
                &&& v.spec_ram().spec_base() == 0
                &&& v.spec_ram().spec_mem() == Seq::new((config.memory_mb * 0x10_0000) as nat, |i: int| 0u8)
                &&& v.spec_bus().wf()
                &&& v.spec_bus().spec_devices().len() == 1
                &&& v.spec_console_base() == device_base(0)
                &&& v.spec_bus().spec_devices()[0].regs() == spec_initial_regs(VIRTIO_MMIO_NUM_QUEUES as nat)
            },
    {
        let ram_bytes: usize = config.memory_mb as usize * 1024 * 1024;
        let ram = match GuestRam::allocate(0, ram_bytes) {
            Ok(ram) => ram,
            Err(e) => {
                let mut m = String::from_str("RAM alloc failed: ");
                m.append(e);
                return Err(Error::Vmm(m));
            },
        };
        let mut bus: VirtioMmioBus<VirtioConsole> = VirtioMmioBus::new();
        let console_base = bus.add_device(VirtioConsole::new());
        Ok(Vmm { config, state: VmState::Created, ram, mmio_bus: bus, console_base })
    }

    /// Loads `kernel` (a bzImage), `initrd` and the command line into RAM, writes the zero
    /// page and the GDT, and returns the entry registers.
    ///
    /// Fails without touching RAM when the configuration names no kernel, the image is
    /// rejected or the kernel would reach the initrd; otherwise the writes of the loader followed by the GDT are made in order,
    /// stopping at the first that does not fit in RAM.
    pub fn load_kernel(&mut self, kernel: &[u8], initrd: Option<&[u8]>) -> (r: Result<InitialRegs, Error>)
        requires
            kernel@.len() <= isize::MAX,
        ensures
            final(self).spec_config() == old(self).spec_config(),
            final(self).spec_state() == old(self).spec_state(),
            final(self).spec_bus() == old(self).spec_bus(),
            final(self).spec_ram().spec_base() == old(self).spec_ram().spec_base(),
            old(self).spec_config().kernel is None ==> {
                &&& r matches Err(e) && e is Vmm && e.spec_message() == "kernel path not set"@
                &&& final(self).spec_ram().spec_mem() == old(self).spec_ram().spec_mem()
            },
            old(self).spec_config().kernel is Some && spec_bzimage_check(kernel@) != BzImageCheck::Valid ==> {
                &&& r matches Err(e) && e is Vmm && e.spec_message() == spec_bzimage_error(spec_bzimage_check(kernel@))
                &&& final(self).spec_ram().spec_mem() == old(self).spec_ram().spec_mem()
            },
            old(self).spec_config().kernel is Some && spec_bzimage_check(kernel@) == BzImageCheck::Valid
                && spec_kernel_overlaps_initrd(kernel@, initrd is Some) ==> {
                &&& r matches Err(e) && e is Vmm && e.spec_message() == kernel_overlaps_initrd_message()
                &&& final(self).spec_ram().spec_mem() == old(self).spec_ram().spec_mem()
            },
            old(self).spec_config().kernel is Some && spec_bzimage_check(kernel@) == BzImageCheck::Valid
                && !spec_kernel_overlaps_initrd(kernel@, initrd is Some) ==> {
                let initrd_v = match initrd { Some(d) => Some(d@), None => None };
                let writes = spec_load_writes(kernel@, initrd_v, spec_cmdline_bytes(old(self).spec_config()),
                    old(self).spec_config().memory_mb) + seq![RamWrite { gpa: GDT_ADDR, data: spec_gdt_bytes() }];
                let applied = spec_apply_writes(old(self).spec_ram().spec_base(), old(self).spec_ram().spec_mem(), writes);
                &&& final(self).spec_ram().spec_mem() == applied.0
                &&& (r is Ok <==> applied.1 is None)
                &&& (r matches Err(e) ==> e is Vmm && e.spec_message() == out_of_range_message(applied.1.unwrap()))
                &&& (r matches Ok(regs) ==> regs == spec_linux64_regs(KERNEL_ADDR, BOOT_PARAMS_ADDR, old(self).spec_config().memory_mb))
            },
    {
        if self.config.kernel.is_none() {
            return Err(Error::Vmm(String::from_str("kernel path not set")));
        }
        let ghost initrd_v = match initrd { Some(d) => Some(d@), None => None };
        let ghost mem0 = self.ram.spec_mem();
        let ghost base = self.ram.spec_base();
        let cmdline: &str = match &self.config.cmdline {
            Some(c) => c.as_str(),
            None => DEFAULT_CMDLINE,
        };
        let ghost w1 = spec_load_writes(kernel@, initrd_v, spec_cmdline_bytes(self.config), self.config.memory_mb);
        let ghost w2 = seq![RamWrite { gpa: GDT_ADDR, data: spec_gdt_bytes() }];
        proof {
            lemma_apply_writes_concat(base, mem0, w1, w2);
        }
        assert(cmdline.spec_bytes() == spec_cmdline_bytes(self.config));
        let result = match KernelLoader::load(&mut self.ram, kernel, initrd, cmdline, self.config.memory_mb) {
            Ok(res) => res,
            Err(e) => {
                return Err(e);
            },
        };
        let ghost m1 = self.ram.spec_mem();
        proof {
            assert(spec_apply_writes(base, mem0, w1) == (m1, None::<u64>));
            assert(w2.drop_first() =~= Seq::<RamWrite>::empty());
            assert(w2[0] == RamWrite { gpa: GDT_ADDR, data: spec_gdt_bytes() });
        }
        match write_gdt(&mut self.ram) {
            Ok(_) => {},
            Err(e) => {
                assert(spec_apply_writes(base, m1, w2) == (m1, Some(GDT_ADDR)));
                return Err(e);
            },
        }
        proof {
            let m2 = self.ram.spec_mem();
            assert(spec_gdt_bytes().len() == 24);
            assert(spec_apply_writes(base, m2, w2.drop_first()) == (m2, None::<u64>));
            assert(spec_apply_writes(base, m1, w2) == (m2, None::<u64>));
        }
        let regs = InitialRegs::for_linux_64(result.kernel_entry, result.boot_params_addr, self.config.memory_mb);
        Ok(regs)
    }

    /// The lifecycle state.
    pub fn state(&self) -> (s: VmState)
        ensures
            s == self.spec_state(),
    {
        self.state
    }

    /// Sets the lifecycle state.
    pub fn set_state(&mut self, s: VmState)
        ensures
            final(self).spec_state() == s,
            final(self).spec_config() == old(self).spec_config(),
            final(self).spec_ram() == old(self).spec_ram(),
            final(self).spec_bus() == old(self).spec_bus(),
            final(self).spec_console_base() == old(self).spec_console_base(),
    {
        self.state = s;
    }

    /// The VM's name.
    pub fn name(&self) -> (n: &str)
        ensures
            n@ == self.spec_config().name@,
    {
        self.config.name.as_str()
    }

    /// Forwards a guest MMIO read to the bus (`None` outside every device window).
    pub fn handle_mmio_read(&self, gpa: u64, size: u8) -> (r: Option<u32>)
        requires
            self.spec_bus().wf(),
        ensures
            r is Some <==> self.spec_bus().spec_contains(gpa),
    {
        self.mmio_bus.read(gpa, size)
    }

    /// Forwards a guest MMIO write to the bus (`false` outside every device window).
    pub fn handle_mmio_write(&mut self, gpa: u64, value: u32, size: u8) -> (b: bool)
        requires
            old(self).spec_bus().wf(),
        ensures
            b == old(self).spec_bus().spec_contains(gpa),
            final(self).spec_bus().wf(),
            final(self).spec_config() == old(self).spec_config(),
            final(self).spec_ram() == old(self).spec_ram(),
    {
        self.mmio_bus.write(gpa, value, size)
    }
}

} // verus!
