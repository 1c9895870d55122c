//! The platform-independent VMM core.
//!
//! - [`machine`] — the VMM instance and its lifecycle
//! - [`vcpu`] — vCPU state and exit handling
//! - [`memory`] — guest-physical memory
//! - [`loader`] — Linux boot protocol
//! - [`boot`] — boot options
use vstd::prelude::*;

pub mod boot;
pub mod machine;
pub mod loader;
pub mod loader_laws;
pub mod memory;
pub mod vcpu;

verus! {

/// Lifecycle state of a VM.
#[derive(Debug, Clone, Copy, PartialEq, Eq, Structural)]
pub enum VmState {
    /// Created, not started.
    Created,
    /// Starting.
    Starting,
    /// Running.
    Running,
    /// Stopping.
    Stopping,
    /// Stopped.
    Stopped,
    /// Crashed.
    Crashed,
}

impl VmState {
    /// Whether the state is `Running`.
    pub fn is_running(&self) -> (b: bool)
        ensures
            b == (*self == VmState::Running),
    {
        match self {
            VmState::Running => true,
            _ => false,
        }
    }

    /// The lower-case name used when the state is stored or shown.
    pub open spec fn spec_name(self) -> Seq<char> {
        match self {
            VmState::Created => "created"@,
            VmState::Starting => "starting"@,
            VmState::Running => "running"@,
            VmState::Stopping => "stopping"@,
            VmState::Stopped => "stopped"@,
            VmState::Crashed => "crashed"@,
        }
    }

    /// The lower-case name used when the state is stored or shown.
    pub fn name(&self) -> (s: &'static str)
        ensures
            s@ == self.spec_name(),
    {
        match self {
            VmState::Created => "created",
            VmState::Starting => "starting",
            VmState::Running => "running",
            VmState::Stopping => "stopping",
            VmState::Stopped => "stopped",
            VmState::Crashed => "crashed",
        }
    }
}

/// A directory shared with the guest over virtiofs.
#[derive(Debug, Clone)]
pub struct SharedDir {
    /// Mount tag in the guest.
    pub tag: String,
    /// Host path.
    pub host_path: String,
    /// Whether the guest may only read.
    pub read_only: bool,
}

/// A port forwarding rule.
#[derive(Debug, Clone)]
pub struct PortForward {
    /// `"tcp"` or `"udp"`.
    pub protocol: String,
    /// Host port.
    pub host_port: u16,
    /// Guest port.
    pub guest_port: u16,
}

/// VM configuration (stored as `vm.json`).
#[derive(Debug, Clone)]
pub struct VmConfig {
    /// Unique VM name.
    pub name: String,
    /// vCPU count.
    pub cpus: u8,
    /// RAM in MiB.
    pub memory_mb: u32,
    /// Disk size in GiB.
    pub disk_gb: u32,
    /// Kernel image path.
    pub kernel: Option<String>,
    /// Initramfs path.
    pub initramfs: Option<String>,
    /// Root file system path.
    pub rootfs: Option<String>,
    /// Kernel command line.
    pub cmdline: Option<String>,
    /// Shared directories.
    pub shared_dirs: Vec<SharedDir>,
    /// Port forwarding rules.
    pub port_forwards: Vec<PortForward>,
    /// Whether audio is on.
    pub audio: bool,
}

impl VmConfig {
    /// A configuration named `name` with 2 vCPUs, 2048 MiB of RAM, a 10 GiB disk, no images,
    /// no command line, no shares or forwards, and audio on.
    pub fn new(name: String) -> (c: Self)
        ensures
            c.name@ == name@,
            c.cpus == 2,
            c.memory_mb == 2048,
            c.disk_gb == 10,
            c.kernel is None,
            c.initramfs is None,
            c.rootfs is None,
            c.cmdline is None,
            c.shared_dirs@.len() == 0,
            c.port_forwards@.len() == 0,
            c.audio,
    {
        VmConfig {
            name,
            cpus: 2,
            memory_mb: 2048,
            disk_gb: 10,
            kernel: None,
            initramfs: None,
            rootfs: None,
            cmdline: None,
            shared_dirs: Vec::new(),
            port_forwards: Vec::new(),
            audio: true,
        }
    }
}

} // verus!
