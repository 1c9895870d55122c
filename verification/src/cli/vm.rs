//! VM lifecycle commands (`vm ls/create/start/stop/.../boot`).
use vstd::prelude::*;
use vstd::string::*;

use crate::vmm::VmConfig;

verus! {

/// `vm` sub-commands.
#[derive(Debug, Clone)]
pub enum VmCmd {
    /// List VMs.
    Ls(LsCmd),
    /// Create a VM.
    Create(CreateCmd),
    /// Edit a VM's configuration.
    Edit(EditCmd),
    /// Start a VM.
    Start(NameCmd),
    /// Stop a VM.
    Stop(NameCmd),
    /// Reboot a VM.
    Reboot(NameCmd),
    /// Shut a VM down gracefully.
    Shutdown(NameCmd),
    /// Delete a VM.
    Rm(RmCmd),
    /// Attach to a VM's console.
    Console(NameCmd),
    /// Show a VM's logs.
    Logs(LogsCmd),
    /// Boot a VM end to end (kernel + initrd + rootfs).
    Boot(BootCmd),
}

/// Options of `vm ls`.
#[derive(Debug, Clone, Copy)]
pub struct LsCmd {
    /// Print JSON.
    pub json: bool,
}

/// Options of `vm create`.
#[derive(Debug, Clone)]
pub struct CreateCmd {
    /// VM name.
    pub name: String,
    /// vCPU count (default 2).
    pub cpus: u8,
    /// RAM in MiB (default 2048).
    pub memory: u32,
    /// Disk size in GiB (default 10).
    pub disk: u32,
    /// Kernel image.
    pub kernel: Option<String>,
    /// Initramfs.
    pub initramfs: Option<String>,
    /// Root file system image.
    pub rootfs: Option<String>,
}

/// Options of `vm edit`.
#[derive(Debug, Clone)]
pub struct EditCmd {
    /// VM name.
    pub name: String,
}

/// A command that names one VM.
#[derive(Debug, Clone)]
pub struct NameCmd {
    /// VM name.
    pub name: String,
}

/// Options of `vm rm`.
#[derive(Debug, Clone)]
pub struct RmCmd {
    /// VM name.
    pub name: String,
    /// Delete without asking.
    pub force: bool,
}

/// Options of `vm logs`.
#[derive(Debug, Clone)]
pub struct LogsCmd {
    /// VM name.
    pub name: String,
    /// Keep following the log.
    pub follow: bool,
}

/// Options of `vm boot`.
#[derive(Debug, Clone)]
pub struct BootCmd {
    /// VM name (default `test-vm`).
    pub name: String,
    /// vCPU count (default 2).
    pub cpus: u8,
    /// RAM in MiB (default 2048).
    pub memory: u32,
    /// Kernel image (bzImage).
    pub kernel: Option<String>,
    /// Initramfs.
    pub initrd: Option<String>,
    /// Root file system image.
    pub rootfs: Option<String>,
    /// Kernel command line.
    pub cmdline: String,
    /// Seconds the vCPU may run (default 10).
    pub timeout_secs: u64,
}

/// The default kernel command line of `vm boot`.
pub const BOOT_DEFAULT_CMDLINE: &'static str =
    "earlyprintk=ttyS0,115200 console=ttyS0,115200 root=/dev/vda rw init=/etc/init.d/rcS";

impl VmCmd {
    /// The sub-command's name, as typed.
    pub open spec fn spec_name(&self) -> Seq<char> {
        match self {
            VmCmd::Ls(_) => "ls"@,
            VmCmd::Create(_) => "create"@,
            VmCmd::Edit(_) => "edit"@,
            VmCmd::Start(_) => "start"@,
            VmCmd::Stop(_) => "stop"@,
            VmCmd::Reboot(_) => "reboot"@,
            VmCmd::Shutdown(_) => "shutdown"@,
            VmCmd::Rm(_) => "rm"@,
            VmCmd::Console(_) => "console"@,
            VmCmd::Logs(_) => "logs"@,
            VmCmd::Boot(_) => "boot"@,
        }
    }

    /// The sub-command's name, as typed.
    pub fn name(&self) -> (s: &'static str)
        ensures
            s@ == self.spec_name(),
    {
        match self {
            VmCmd::Ls(_) => "ls",
            VmCmd::Create(_) => "create",
            VmCmd::Edit(_) => "edit",
            VmCmd::Start(_) => "start",
            VmCmd::Stop(_) => "stop",
            VmCmd::Reboot(_) => "reboot",
            VmCmd::Shutdown(_) => "shutdown",
            VmCmd::Rm(_) => "rm",
            VmCmd::Console(_) => "console",
            VmCmd::Logs(_) => "logs",
            VmCmd::Boot(_) => "boot",
        }
    }

    /// The exit code of a sub-command that only reports that it is not available yet
    /// (all but `boot`, which runs the VM).
    pub fn placeholder_exit_code(&self) -> (r: Option<i32>)
        ensures
            r == (if self is Boot { None::<i32> } else { Some(0i32) }),
    {
        match self {
            VmCmd::Boot(_) => None,
            _ => Some(0),
        }
    }
}

impl CreateCmd {
    /// `vm create --name <name>` with every other option at its default.
    pub fn new(name: String) -> (c: Self)
        ensures
            c.name@ == name@,
            c.cpus == 2,
            c.memory == 2048,
            c.disk == 10,
            c.kernel is None,
            c.initramfs is None,
            c.rootfs is None,
    {
        CreateCmd { name, cpus: 2, memory: 2048, disk: 10, kernel: None, initramfs: None, rootfs: None }
    }
}

/// The image used when `configured` is not given.
pub open spec fn spec_or_default(configured: Option<String>, default: Seq<char>) -> Seq<char> {
    match configured {
        Some(p) => p@,
        None => default,
    }
}

fn or_default(configured: &Option<String>, default: &str) -> (p: String)
    ensures
        p@ == spec_or_default(*configured, default@),
{
    match configured {
        Some(p) => p.clone(),
        None => String::from_str(default),
    }
}

impl BootCmd {
    /// `vm boot` with every option at its default.
    pub fn new() -> (c: Self)
        ensures
            c.name@ == "test-vm"@,
            c.cpus == 2,
            c.memory == 2048,
            c.kernel is None,
            c.initrd is None,
            c.rootfs is None,
            c.cmdline@ == BOOT_DEFAULT_CMDLINE@,
            c.timeout_secs == 10,
    {
        BootCmd {
            name: String::from_str("test-vm"),
            cpus: 2,
            memory: 2048,
            kernel: None,
            initrd: None,
            rootfs: None,
            cmdline: String::from_str(BOOT_DEFAULT_CMDLINE),
            timeout_secs: 10,
        }
    }

    /// The kernel, initrd and rootfs to boot: the given ones, or the images under
    /// `./assets`.
    pub fn image_paths(&self) -> (r: (String, String, String))
        ensures
            r.0@ == spec_or_default(self.kernel, "./assets/kernels/vmlinuz"@),
            r.1@ == spec_or_default(self.initrd, "./assets/initramfs/initrd.img"@),
            r.2@ == spec_or_default(self.rootfs, "./assets/rootfs/rootfs.img"@),
    {
        (
            or_default(&self.kernel, "./assets/kernels/vmlinuz"),
            or_default(&self.initrd, "./assets/initramfs/initrd.img"),
            or_default(&self.rootfs, "./assets/rootfs/rootfs.img"),
        )
    }

    /// The configuration of the booted VM: name, vCPUs and RAM from the options, the three
    /// images and the command line; other settings at their defaults.
    pub fn vm_config(&self, kernel: String, initrd: String, rootfs: String) -> (c: VmConfig)
        ensures
            spec_boot_config(*self, c, kernel@, initrd@, rootfs@),
    {
        let mut config = VmConfig::new(self.name.clone());
        config.cpus = self.cpus;
        config.memory_mb = self.memory;
        config.kernel = Some(kernel);
        config.initramfs = Some(initrd);
        config.rootfs = Some(rootfs);
        config.cmdline = Some(self.cmdline.clone());
        config
    }
}

/// How `vm boot` begins once the host has said which images exist.
#[derive(Debug)]
pub enum BootStart {
    /// An image is missing: report `label` and `path`, create no VM, and exit with
    /// `exit_code`.
    Missing {
        /// Which image: `kernel`, `initrd` or `rootfs`.
        label: String,
        /// Where it was looked for.
        path: String,
        /// The command's exit code.
        exit_code: i32,
    },
    /// Every image exists: boot a VM with this configuration.
    Boot(VmConfig),
}

/// Exit code of `vm boot` when an image is missing.
pub const BOOT_MISSING_EXIT_CODE: i32 = 1;

/// Whether `c` is the configuration `cmd.vm_config(kernel, initrd, rootfs)` gives.
pub open spec fn spec_boot_config(cmd: BootCmd, c: VmConfig, kernel: Seq<char>, initrd: Seq<char>, rootfs: Seq<char>) -> bool {
    &&& c.name@ == cmd.name@
    &&& c.cpus == cmd.cpus
    &&& c.memory_mb == cmd.memory
    &&& c.disk_gb == 10
    &&& c.kernel matches Some(k) && k@ == kernel
    &&& c.initramfs matches Some(i) && i@ == initrd
    &&& c.rootfs matches Some(r) && r@ == rootfs
    &&& c.cmdline matches Some(l) && l@ == cmd.cmdline@
    &&& c.shared_dirs@.len() == 0
    &&& c.port_forwards@.len() == 0
    &&& c.audio
}

impl BootCmd {
    /// The start of `vm boot`, given whether the kernel, initrd and rootfs of
    /// `image_paths` exist: the first missing one (in that order) ends the command with
    /// exit code 1 before any VM is made; otherwise the VM is configured by `vm_config`.
    pub fn start(&self, kernel_exists: bool, initrd_exists: bool, rootfs_exists: bool) -> (r: BootStart)
        ensures
            ({
                let k = spec_or_default(self.kernel, "./assets/kernels/vmlinuz"@);
                let i = spec_or_default(self.initrd, "./assets/initramfs/initrd.img"@);
                let f = spec_or_default(self.rootfs, "./assets/rootfs/rootfs.img"@);
                &&& !kernel_exists ==> (r matches BootStart::Missing { label, path, exit_code }
                    && label@ == "kernel"@ && path@ == k && exit_code == 1)
                &&& kernel_exists && !initrd_exists ==> (r matches BootStart::Missing { label, path, exit_code }
                    && label@ == "initrd"@ && path@ == i && exit_code == 1)
                &&& kernel_exists && initrd_exists && !rootfs_exists ==> (r matches BootStart::Missing { label, path, exit_code }
                    && label@ == "rootfs"@ && path@ == f && exit_code == 1)
                &&& kernel_exists && initrd_exists && rootfs_exists ==> (r matches BootStart::Boot(c)
                    && spec_boot_config(*self, c, k, i, f))
            }),
    {
        let (kernel, initrd, rootfs) = self.image_paths();
        match first_missing(kernel_exists, initrd_exists, rootfs_exists) {
            Some(label) => {
                let path = if !kernel_exists {
                    kernel
                } else if !initrd_exists {
                    initrd
                } else {
                    rootfs
                };
                BootStart::Missing { label: String::from_str(label), path, exit_code: BOOT_MISSING_EXIT_CODE }
            },
            None => BootStart::Boot(self.vm_config(kernel, initrd, rootfs)),
        }
    }
}

/// The first of kernel, initrd and rootfs that is missing, by label; `vm boot` then
/// exits with code 1.
pub fn first_missing(kernel_exists: bool, initrd_exists: bool, rootfs_exists: bool) -> (r: Option<&'static str>)
    ensures
        r is None <==> kernel_exists && initrd_exists && rootfs_exists,
        !kernel_exists ==> (r matches Some(l) && l@ == "kernel"@),
        kernel_exists && !initrd_exists ==> (r matches Some(l) && l@ == "initrd"@),
        kernel_exists && initrd_exists && !rootfs_exists ==> (r matches Some(l) && l@ == "rootfs"@),
{
    if !kernel_exists {
        Some("kernel")
    } else if !initrd_exists {
        Some("initrd")
    } else if !rootfs_exists {
        Some("rootfs")
    } else {
        None
    }
}

} // verus!
