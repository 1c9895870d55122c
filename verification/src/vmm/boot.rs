//! Booting a VM end to end, shared by the command line's `vm boot` and the API.
//!
//! Loading the kernel is done by the library directly; the hypervisor part
//! alternates calls into the back end with decisions, and is driven by
//! [`BootFlow`]: the caller performs each [`BootAction`] and reports the
//! outcome as a [`BootEvent`].
use vstd::prelude::*;

use crate::error::Error;
use crate::hypervisor::ProbeResult;
use crate::vmm::loader::{InitialRegs, GDT_ADDR, GDT_ENTRIES};
use crate::vmm::VmConfig;

verus! {

/// Default boot timeout in seconds.
pub const DEFAULT_BOOT_TIMEOUT_SECS: u64 = 120;

/// `rel` (a relative path) joined under `dir` with `/`, as a Unix path join does.
pub open spec fn spec_join_path(dir: Seq<char>, rel: Seq<char>) -> Seq<char> {
    if dir.len() == 0 {
        rel
    } else if dir.last() == '/' {
        dir + rel
    } else {
        dir + seq!['/'] + rel
    }
}

/// Joins the relative path `rel` under `dir`.
pub fn join_path(dir: &str, rel: &str) -> (p: String)
    ensures
        p@ == spec_join_path(dir@, rel@),
{
    let d = crate::text::str_to_chars(dir);
    let mut out = String::from_str(dir);
    if d.len() == 0 {
        return String::from_str(rel);
    }
    if d[d.len() - 1] != '/' {
        out.append("/");
        proof { reveal_strlit("/"); }
    }
    out.append(rel);
    proof {
        if d@.last() != '/' {
            assert("/"@ =~= seq!['/']);
        }
    }
    out
}

/// What a boot needs: the configuration and the three images.
#[derive(Debug, Clone)]
pub struct BootOptions {
    /// VM configuration.
    pub config: VmConfig,
    /// Kernel image.
    pub kernel: String,
    /// Initrd.
    pub initrd: String,
    /// Root file system image.
    pub rootfs: String,
    /// Timeout in seconds.
    pub timeout_secs: u64,
}

/// The configured image, or the default under the assets directory.
pub open spec fn spec_image_path(configured: Option<String>, assets_dir: Seq<char>, default_rel: Seq<char>) -> Seq<char> {
    match configured {
        Some(p) => p@,
        None => spec_join_path(assets_dir, default_rel),
    }
}

fn image_path(configured: &Option<String>, assets_dir: &str, default_rel: &str) -> (p: String)
    ensures
        p@ == spec_image_path(*configured, assets_dir@, default_rel@),
{
    match configured {
        Some(p) => p.clone(),
        None => join_path(assets_dir, default_rel),
    }
}

impl BootOptions {
    /// Boot options for `config`; images that the configuration leaves unset default to
    /// `kernels/vmlinuz`, `initramfs/initrd.img` and `rootfs/rootfs.img` under `assets_dir`,
    /// and the timeout is `DEFAULT_BOOT_TIMEOUT_SECS`.
    pub fn from_config(config: VmConfig, assets_dir: &str) -> (r: Result<Self, Error>)
        ensures
            r matches Ok(o) && {
                &&& o.kernel@ == spec_image_path(config.kernel, assets_dir@, "kernels/vmlinuz"@)
                &&& o.initrd@ == spec_image_path(config.initramfs, assets_dir@, "initramfs/initrd.img"@)
                &&& o.rootfs@ == spec_image_path(config.rootfs, assets_dir@, "rootfs/rootfs.img"@)
                &&& o.timeout_secs == DEFAULT_BOOT_TIMEOUT_SECS
                &&& o.config == config
            },
    {
        let kernel = image_path(&config.kernel, assets_dir, "kernels/vmlinuz");
        let initrd = image_path(&config.initramfs, assets_dir, "initramfs/initrd.img");
        let rootfs = image_path(&config.rootfs, assets_dir, "rootfs/rootfs.img");
        Ok(BootOptions { config, kernel, initrd, rootfs, timeout_secs: DEFAULT_BOOT_TIMEOUT_SECS })
    }

    /// Checks that the three images exist (the host reports which do), in the order
    /// kernel, initrd, rootfs; the first missing one is reported.
    pub fn validate_assets(&self, kernel_exists: bool, initrd_exists: bool, rootfs_exists: bool) -> (r: Result<(), Error>)
        ensures
            r is Ok <==> kernel_exists && initrd_exists && rootfs_exists,
            r matches Err(e) ==> e is Vmm && e.spec_message() == (if !kernel_exists {
                missing_asset_message("kernel"@, self.kernel@)
            } else if !initrd_exists {
                missing_asset_message("initrd"@, self.initrd@)
            } else {
                missing_asset_message("rootfs"@, self.rootfs@)
            }),
    {
        if !kernel_exists {
            return Err(Error::Vmm(missing_asset("kernel", self.kernel.as_str())));
        }
        if !initrd_exists {
            return Err(Error::Vmm(missing_asset("initrd", self.initrd.as_str())));
        }
        if !rootfs_exists {
            return Err(Error::Vmm(missing_asset("rootfs", self.rootfs.as_str())));
        }
        Ok(())
    }
}

/// The message for a missing image.
pub open spec fn missing_asset_message(label: Seq<char>, path: Seq<char>) -> Seq<char> {
    label + " not found: "@ + path + " (run scripts/prepare-guest.sh)"@
}

fn missing_asset(label: &str, path: &str) -> (m: String)
    ensures
        m@ == missing_asset_message(label@, path@),
{
    let mut m = String::from_str(label);
    m.append(" not found: ");
    m.append(path);
    m.append(" (run scripts/prepare-guest.sh)");
    m
}

/// Who drives the boot: the API (errors are returned and a stop hook is
/// registered while the vCPU runs) or the command line (outcomes become exit codes).
#[derive(Debug, Clone, Copy, PartialEq, Eq, Structural)]
pub enum BootMode {
    /// `run_boot`, used by the API and the GUI.
    Api,
    /// `vm boot` on the command line.
    Cli,
}

/// How the vCPU run ended.
#[derive(Debug)]
pub enum RunOutcome {
    /// The vCPU exited with this code.
    Exited(i32),
    /// Running failed.
    Failed(Error),
    /// The timeout elapsed first.
    TimedOut,
}

/// The outcome of the last action, reported by the caller.
#[derive(Debug)]
pub enum BootEvent {
    /// The hypervisor was probed.
    Probed(ProbeResult),
    /// Creating the VM in the back end finished.
    VmCreated(Result<(), Error>),
    /// Mapping guest RAM finished.
    RamMapped(Result<(), Error>),
    /// Setting the vCPU entry state finished.
    EntrySet(Result<(), Error>),
    /// Starting the vCPU finished.
    Started(Result<(), Error>),
    /// The run ended.
    RunEnded(RunOutcome),
    /// Stopping the VM after a timeout finished.
    StopDone(Result<(), Error>),
}

/// The long-mode entry state handed to the back end for vCPU 0.
#[derive(Debug, Clone, Copy, PartialEq, Eq, Structural)]
pub struct VcpuEntry {
    /// Instruction pointer.
    pub rip: u64,
    /// Stack pointer.
    pub rsp: u64,
    /// Zero-page address.
    pub rsi: u64,
    /// CR0.
    pub cr0: u64,
    /// CR3.
    pub cr3: u64,
    /// CR4.
    pub cr4: u64,
    /// EFER.
    pub efer: u64,
    /// GDT base.
    pub gdt_base: u64,
    /// GDT limit.
    pub gdt_limit: u16,
}

/// The entry state for `regs` with the flat GDT at `GDT_ADDR` (limit `GDT_ENTRIES * 8 - 1`).
pub open spec fn spec_vcpu_entry(regs: InitialRegs) -> VcpuEntry {
    VcpuEntry {
        rip: regs.rip,
        rsp: regs.rsp,
        rsi: regs.rsi,
        cr0: regs.cr0,
        cr3: regs.cr3,
        cr4: regs.cr4,
        efer: regs.efer,
        gdt_base: GDT_ADDR,
        gdt_limit: (GDT_ENTRIES * 8 - 1) as u16,
    }
}

/// The entry state for `regs` (see `spec_vcpu_entry`).
pub fn vcpu_entry(regs: &InitialRegs) -> (e: VcpuEntry)
    ensures
        e == spec_vcpu_entry(*regs),
{
    VcpuEntry {
        rip: regs.rip,
        rsp: regs.rsp,
        rsi: regs.rsi,
        cr0: regs.cr0,
        cr3: regs.cr3,
        cr4: regs.cr4,
        efer: regs.efer,
        gdt_base: GDT_ADDR,
        gdt_limit: (GDT_ENTRIES * 8 - 1) as u16,
    }
}

/// What the caller is to do next.
#[derive(Debug)]
pub enum BootAction {
    /// Create the VM in the back end.
    CreateVm,
    /// Map guest RAM (`size` bytes) at guest-physical address 0; register the stop
    /// hook first when `set_stop_hook`.
    MapRam {
        /// RAM size in bytes.
        size: u64,
        /// Whether to register the stop hook.
        set_stop_hook: bool,
    },
    /// Set vCPU 0's entry state.
    SetEntry(VcpuEntry),
    /// Start the vCPU.
    Start,
    /// Run the vCPU for at most `timeout_secs` seconds.
    Run {
        /// The timeout.
        timeout_secs: u64,
    },
    /// Stop the VM.
    Stop,
    /// The boot is over: clear the stop hook when `clear_stop_hook`, and return `result`.
    Finish {
        /// Whether to clear the stop hook.
        clear_stop_hook: bool,
        /// The boot's result: the exit code, or the error.
        result: Result<i32, Error>,
    },
}

/// Where a boot stands: which event it waits for.
#[derive(Debug, Clone, Copy, PartialEq, Eq, Structural)]
pub enum BootPhase {
    /// Waiting for the probe.
    Probing,
    /// Waiting for the VM to be created.
    CreatingVm,
    /// Waiting for RAM to be mapped.
    MappingRam,
    /// Waiting for the entry state to be set.
    SettingEntry,
    /// Waiting for the vCPU to start.
    Starting,
    /// Waiting for the run to end.
    Running,
    /// Waiting for the stop after a timeout.
    Stopping,
    /// Over.
    Done,
}

/// The order of the phases; every step moves to a later one.
pub open spec fn phase_rank(p: BootPhase) -> nat {
    match p {
        BootPhase::Probing => 0,
        BootPhase::CreatingVm => 1,
        BootPhase::MappingRam => 2,
        BootPhase::SettingEntry => 3,
        BootPhase::Starting => 4,
        BootPhase::Running => 5,
        BootPhase::Stopping => 6,
        BootPhase::Done => 7,
    }
}

/// The hypervisor part of a boot, after the kernel has been loaded.
#[derive(Debug, Clone, Copy)]
pub struct BootFlow {
    /// Who drives the boot.
    pub mode: BootMode,
    /// The registers from loading the kernel.
    pub regs: InitialRegs,
    /// Guest RAM size in bytes.
    pub ram_size: u64,
    /// Run timeout in seconds.
    pub timeout_secs: u64,
    /// Where the boot stands.
    pub phase: BootPhase,
}

/// Whether `e` is the event that phase `p` waits for.
pub open spec fn spec_accepts(p: BootPhase, e: BootEvent) -> bool {
    match e {
        BootEvent::Probed(_) => p == BootPhase::Probing,
        BootEvent::VmCreated(_) => p == BootPhase::CreatingVm,
        BootEvent::RamMapped(_) => p == BootPhase::MappingRam,
        BootEvent::EntrySet(_) => p == BootPhase::SettingEntry,
        BootEvent::Started(_) => p == BootPhase::Starting,
        BootEvent::RunEnded(_) => p == BootPhase::Running,
        BootEvent::StopDone(_) => p == BootPhase::Stopping,
    }
}

/// The error returned by the API when no hypervisor can be used.
pub open spec fn hypervisor_unavailable_message() -> Seq<char> {
    "hypervisor not available"@
}

/// Whether the stop hook is registered while a boot in `mode` waits in `phase`: in API mode,
/// from the RAM mapping on (it is registered just before mapping RAM).
pub open spec fn spec_hook_set(mode: BootMode, phase: BootPhase) -> bool {
    mode == BootMode::Api && phase_rank(phase) >= 2
}

impl BootFlow {
    /// A boot waiting for the hypervisor probe; the caller probes first.
    pub fn new(mode: BootMode, regs: InitialRegs, ram_size: u64, timeout_secs: u64) -> (f: Self)
        ensures
            f == (BootFlow { mode, regs, ram_size, timeout_secs, phase: BootPhase::Probing }),
    {
        BootFlow { mode, regs, ram_size, timeout_secs, phase: BootPhase::Probing }
    }

    /// Whether `e` is the event this boot waits for.
    pub fn accepts(&self, e: &BootEvent) -> (b: bool)
        ensures
            b == spec_accepts(self.phase, *e),
    {
        match e {
            BootEvent::Probed(_) => self.phase == BootPhase::Probing,
            BootEvent::VmCreated(_) => self.phase == BootPhase::CreatingVm,
            BootEvent::RamMapped(_) => self.phase == BootPhase::MappingRam,
            BootEvent::EntrySet(_) => self.phase == BootPhase::SettingEntry,
            BootEvent::Started(_) => self.phase == BootPhase::Starting,
            BootEvent::RunEnded(_) => self.phase == BootPhase::Running,
            BootEvent::StopDone(_) => self.phase == BootPhase::Stopping,
        }
    }

    /// Takes the outcome of the last action and says what to do next.
    ///
    /// An unavailable hypervisor ends the API's boot with an error and the command
    /// line's with exit code 0 (the kernel was loaded). A failed back-end call ends the
    /// boot with that error, except a failed RAM mapping, which is only reported. The
    /// stop hook is registered before mapping RAM in API mode, and every finish after that
    /// point clears it, whatever the result (`spec_hook_set`). A failed run is an error for the API and exit
    /// code 1 for the command line; a timeout stops the VM and gives exit code 0.
    pub fn step(&mut self, e: BootEvent) -> (a: BootAction)
        requires
            spec_accepts(old(self).phase, e),
        ensures
            final(self).mode == old(self).mode,
            final(self).regs == old(self).regs,
            final(self).ram_size == old(self).ram_size,
            final(self).timeout_secs == old(self).timeout_secs,
            (a is Finish) <==> final(self).phase == BootPhase::Done,
            phase_rank(final(self).phase) > phase_rank(old(self).phase),
            a matches BootAction::Finish { clear_stop_hook: c, .. } ==> c == spec_hook_set(old(self).mode, old(self).phase),
            match e {
                BootEvent::Probed(p) => if p.available {
                    a is CreateVm && final(self).phase == BootPhase::CreatingVm
                } else if old(self).mode == BootMode::Api {
                    a matches BootAction::Finish { clear_stop_hook: false, result: Err(Error::Vmm(m)) }
                        && m@ == hypervisor_unavailable_message()
                } else {
                    a matches BootAction::Finish { clear_stop_hook: false, result: Ok(0) }
                },
                BootEvent::VmCreated(r) => match r {
                    Ok(()) => a == (BootAction::MapRam {
                        size: old(self).ram_size,
                        set_stop_hook: old(self).mode == BootMode::Api,
                    }) && final(self).phase == BootPhase::MappingRam,
                    Err(err) => a == (BootAction::Finish { clear_stop_hook: false, result: Err(err) }),
                },
                BootEvent::RamMapped(_) => a == BootAction::SetEntry(spec_vcpu_entry(old(self).regs))
                    && final(self).phase == BootPhase::SettingEntry,
                BootEvent::EntrySet(r) => match r {
                    Ok(()) => a is Start && final(self).phase == BootPhase::Starting,
                    Err(err) => a == (BootAction::Finish {
                        clear_stop_hook: old(self).mode == BootMode::Api,
                        result: Err(err),
                    }),
                },
                BootEvent::Started(r) => match r {
                    Ok(()) => a == (BootAction::Run { timeout_secs: old(self).timeout_secs })
                        && final(self).phase == BootPhase::Running,
                    Err(err) => a == (BootAction::Finish {
                        clear_stop_hook: old(self).mode == BootMode::Api,
                        result: Err(err),
                    }),
                },
                BootEvent::RunEnded(o) => match o {
                    RunOutcome::Exited(code) => a == (BootAction::Finish {
                        clear_stop_hook: old(self).mode == BootMode::Api,
                        result: Ok(code),
                    }),
                    RunOutcome::Failed(err) => if old(self).mode == BootMode::Api {
                        a == (BootAction::Finish { clear_stop_hook: true, result: Err(err) })
                    } else {
                        a == (BootAction::Finish { clear_stop_hook: false, result: Ok(1) })
                    },
                    RunOutcome::TimedOut => a is Stop && final(self).phase == BootPhase::Stopping,
                },
                BootEvent::StopDone(r) => match r {
                    Ok(()) => a == (BootAction::Finish {
                        clear_stop_hook: old(self).mode == BootMode::Api,
                        result: Ok(0),
                    }),
                    Err(err) => a == (BootAction::Finish {
                        clear_stop_hook: old(self).mode == BootMode::Api,
                        result: Err(err),
                    }),
                },
            },
    {
        let api = self.mode == BootMode::Api;
        match e {
            BootEvent::Probed(p) => {
                if p.is_ok() {
                    self.phase = BootPhase::CreatingVm;
                    BootAction::CreateVm
                } else {
                    self.phase = BootPhase::Done;
                    if api {
                        BootAction::Finish {
                            clear_stop_hook: false,
                            result: Err(Error::Vmm(String::from_str("hypervisor not available"))),
                        }
                    } else {
                        BootAction::Finish { clear_stop_hook: false, result: Ok(0) }
                    }
                }
            },
            BootEvent::VmCreated(r) => match r {
                Ok(()) => {
                    self.phase = BootPhase::MappingRam;
                    BootAction::MapRam { size: self.ram_size, set_stop_hook: api }
                },
                Err(err) => {
                    self.phase = BootPhase::Done;
                    BootAction::Finish { clear_stop_hook: false, result: Err(err) }
                },
            },
            BootEvent::RamMapped(_) => {
                self.phase = BootPhase::SettingEntry;
                BootAction::SetEntry(vcpu_entry(&self.regs))
            },
            BootEvent::EntrySet(r) => match r {
                Ok(()) => {
                    self.phase = BootPhase::Starting;
                    BootAction::Start
                },
                Err(err) => {
                    self.phase = BootPhase::Done;
                    BootAction::Finish { clear_stop_hook: api, result: Err(err) }
                },
            },
            BootEvent::Started(r) => match r {
                Ok(()) => {
                    self.phase = BootPhase::Running;
                    BootAction::Run { timeout_secs: self.timeout_secs }
                },
                Err(err) => {
                    self.phase = BootPhase::Done;
                    BootAction::Finish { clear_stop_hook: api, result: Err(err) }
                },
            },
            BootEvent::RunEnded(o) => match o {
                RunOutcome::Exited(code) => {
                    self.phase = BootPhase::Done;
                    BootAction::Finish { clear_stop_hook: api, result: Ok(code) }
                },
                RunOutcome::Failed(err) => {
                    self.phase = BootPhase::Done;
                    if api {
                        BootAction::Finish { clear_stop_hook: true, result: Err(err) }
                    } else {
                        BootAction::Finish { clear_stop_hook: false, result: Ok(1) }
                    }
                },
                RunOutcome::TimedOut => {
                    self.phase = BootPhase::Stopping;
                    BootAction::Stop
                },
            },
            BootEvent::StopDone(r) => match r {
                Ok(()) => {
                    self.phase = BootPhase::Done;
                    BootAction::Finish { clear_stop_hook: api, result: Ok(0) }
                },
                Err(err) => {
                    self.phase = BootPhase::Done;
                    BootAction::Finish { clear_stop_hook: api, result: Err(err) }
                },
            },
        }
    }
}

/// A boot takes at most seven steps: every step moves to a later phase, and only
/// `Finish` reaches the last one.
pub proof fn law_boot_terminates(p: BootPhase)
    ensures
        phase_rank(p) <= 7,
        phase_rank(p) == 7 <==> p == BootPhase::Done,
{
}

} // verus!
