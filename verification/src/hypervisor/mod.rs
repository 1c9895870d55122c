//! Hypervisor back ends: availability probing and back-end selection.
//!
//! Each platform uses its native hypervisor (WHVP on Windows, Hypervisor
//! Framework on macOS, KVM on Linux). What the host offers is gathered by the
//! caller into a [`HostFacts`]; the decisions made from those facts live here.
use vstd::prelude::*;
use vstd::string::*;

use crate::error::Error;
use crate::vmm::VmConfig;

pub mod macos;

pub use macos::HvfBackend;

verus! {

/// The host operating system.
#[derive(Debug, Clone, Copy, PartialEq, Eq, Structural)]
pub enum HostOs {
    /// Windows.
    Windows,
    /// macOS.
    MacOs,
    /// Linux.
    Linux,
    /// Any other system.
    Other,
}

/// Outcome of probing a hypervisor back end or an external dependency.
#[derive(Debug, Clone)]
pub struct ProbeResult {
    /// Whether the back end / dependency can be used.
    pub available: bool,
    /// Label of what was probed.
    pub backend: String,
    /// Why it cannot be used, when it cannot.
    pub error: Option<String>,
}

/// A successful probe of `backend`.
pub open spec fn probe_ok(backend: Seq<char>) -> (bool, Seq<char>, Option<Seq<char>>) {
    (true, backend, None)
}

/// A failed probe of `backend` with the given reason.
pub open spec fn probe_err(backend: Seq<char>, error: Seq<char>) -> (bool, Seq<char>, Option<Seq<char>>) {
    (false, backend, Some(error))
}

impl ProbeResult {
    /// The result as plain values: availability, label, reason.
    pub open spec fn view(&self) -> (bool, Seq<char>, Option<Seq<char>>) {
        (
            self.available,
            self.backend@,
            match self.error {
                Some(e) => Some(e@),
                None => None,
            },
        )
    }

    /// A result saying that `backend` is available.
    pub fn ok(backend: &str) -> (r: Self)
        ensures
            r@ == probe_ok(backend@),
    {
        ProbeResult { available: true, backend: String::from_str(backend), error: None }
    }

    /// A result saying that `backend` is unavailable, for the given reason.
    pub fn err(backend: &str, error: &str) -> (r: Self)
        ensures
            r@ == probe_err(backend@, error@),
    {
        ProbeResult {
            available: false,
            backend: String::from_str(backend),
            error: Some(String::from_str(error)),
        }
    }

    /// Whether the probed back end is available.
    pub fn is_ok(&self) -> (b: bool)
        ensures
            b == self.available,
    {
        self.available
    }

    /// The one-line text shown for the result.
    pub open spec fn spec_render(&self) -> Seq<char> {
        if self.available {
            "✓ "@ + self.backend@ + " (可用)"@
        } else {
            "✗ "@ + self.backend@ + " (不可用"@ + match self.error {
                Some(e) => ": "@ + e@,
                None => ""@,
            } + ")"@
        }
    }

    /// Renders the result as one line of text (see `spec_render`).
    pub fn render(&self) -> (s: String)
        ensures
            s@ == self.spec_render(),
    {
        if self.available {
            let mut s = String::from_str("✓ ");
            s.append(self.backend.as_str());
            s.append(" (可用)");
            s
        } else {
            let mut s = String::from_str("✗ ");
            s.append(self.backend.as_str());
            s.append(" (不可用");
            let ghost head = s@;
            match &self.error {
                Some(e) => {
                    s.append(": ");
                    s.append(e.as_str());
                    assert(s@ =~= head + (": "@ + e@));
                },
                None => {
                    proof { reveal_strlit(""); }
                    assert(s@ =~= head + ""@);
                },
            }
            s.append(")");
            s
        }
    }
}

/// What the host offers, as gathered by the caller before any decision is made.
#[derive(Debug, Clone, Copy)]
pub struct HostFacts {
    /// The operating system.
    pub os: HostOs,
    /// Whether the KVM back end was compiled in.
    pub kvm_enabled: bool,
    /// Whether the WHVP back end was compiled in.
    pub whvp_enabled: bool,
    /// Permission bits of `/dev/kvm`, or `None` when it does not exist.
    pub dev_kvm_mode: Option<u32>,
    /// Whether opening the KVM system handle succeeded.
    pub kvm_opened: bool,
    /// Whether WHVP reports that a hypervisor is present.
    pub whvp_present: bool,
}

/// What probing KVM yields on a host.
pub open spec fn spec_probe_kvm(f: HostFacts) -> (bool, Seq<char>, Option<Seq<char>>) {
    if f.os == HostOs::Linux && f.kvm_enabled {
        match f.dev_kvm_mode {
            None => probe_err("KVM"@, "/dev/kvm not found"@),
            Some(mode) => if mode & 0o060u32 == 0 {
                probe_err("KVM"@, "/dev/kvm not readable/writable"@)
            } else if f.kvm_opened {
                probe_ok("KVM"@)
            } else {
                probe_err("KVM"@, "failed to open /dev/kvm"@)
            },
        }
    } else if f.os == HostOs::Linux {
        if f.dev_kvm_mode is Some {
            probe_err("KVM"@, "feature 'kvm' not enabled - build with --features kvm"@)
        } else {
            probe_err("KVM"@, "/dev/kvm not found"@)
        }
    } else {
        probe_err("KVM"@, "not running on Linux"@)
    }
}

/// Probes the KVM back end from the host facts.
pub fn probe_kvm(f: &HostFacts) -> (r: ProbeResult)
    ensures
        r@ == spec_probe_kvm(*f),
{
    if f.os == HostOs::Linux && f.kvm_enabled {
        match f.dev_kvm_mode {
            None => ProbeResult::err("KVM", "/dev/kvm not found"),
            Some(mode) => if mode & 0o060u32 == 0 {
                ProbeResult::err("KVM", "/dev/kvm not readable/writable")
            } else if f.kvm_opened {
                ProbeResult::ok("KVM")
            } else {
                ProbeResult::err("KVM", "failed to open /dev/kvm")
            },
        }
    } else if f.os == HostOs::Linux {
        if f.dev_kvm_mode.is_some() {
            ProbeResult::err("KVM", "feature 'kvm' not enabled - build with --features kvm")
        } else {
            ProbeResult::err("KVM", "/dev/kvm not found")
        }
    } else {
        ProbeResult::err("KVM", "not running on Linux")
    }
}

/// What probing WHVP yields on a host.
pub open spec fn spec_probe_whvp(f: HostFacts) -> (bool, Seq<char>, Option<Seq<char>>) {
    if f.os == HostOs::Windows && f.whvp_enabled {
        if f.whvp_present {
            probe_ok("WHVP"@)
        } else {
            probe_err("WHVP"@, "hypervisor not present or not enabled"@)
        }
    } else if f.os == HostOs::Windows {
        probe_err("WHVP"@, "feature 'whvp' not enabled - build with --features whvp"@)
    } else {
        probe_err("WHVP"@, "not running on Windows"@)
    }
}

/// Probes the WHVP back end from the host facts.
pub fn probe_whvp(f: &HostFacts) -> (r: ProbeResult)
    ensures
        r@ == spec_probe_whvp(*f),
{
    if f.os == HostOs::Windows && f.whvp_enabled {
        if f.whvp_present {
            ProbeResult::ok("WHVP")
        } else {
            ProbeResult::err("WHVP", "hypervisor not present or not enabled")
        }
    } else if f.os == HostOs::Windows {
        ProbeResult::err("WHVP", "feature 'whvp' not enabled - build with --features whvp")
    } else {
        ProbeResult::err("WHVP", "not running on Windows")
    }
}

/// What probing the Hypervisor Framework yields on a host.
pub open spec fn spec_probe_hvf(os: HostOs) -> (bool, Seq<char>, Option<Seq<char>>) {
    if os == HostOs::MacOs {
        probe_ok("Hypervisor Framework"@)
    } else {
        probe_err("Hypervisor Framework"@, "not running on macOS"@)
    }
}

/// What probing the host's native hypervisor yields.
pub open spec fn spec_probe(f: HostFacts) -> (bool, Seq<char>, Option<Seq<char>>) {
    match f.os {
        HostOs::Windows => spec_probe_whvp(f),
        HostOs::MacOs => spec_probe_hvf(f.os),
        HostOs::Linux => spec_probe_kvm(f),
        HostOs::Other => probe_err("unknown"@, "unsupported platform"@),
    }
}

/// Probes the native hypervisor of the host: WHVP on Windows, the Hypervisor
/// Framework on macOS, KVM on Linux.
pub fn probe(f: &HostFacts) -> (r: ProbeResult)
    ensures
        r@ == spec_probe(*f),
{
    match f.os {
        HostOs::Windows => probe_whvp(f),
        HostOs::MacOs => <HvfBackend as Hypervisor>::probe(f),
        HostOs::Linux => probe_kvm(f),
        HostOs::Other => ProbeResult::err("unknown", "unsupported platform"),
    }
}

/// Name of the native back end of an operating system.
pub open spec fn spec_backend_name(os: HostOs) -> Seq<char> {
    match os {
        HostOs::Windows => "WHVP"@,
        HostOs::MacOs => "Hypervisor Framework"@,
        HostOs::Linux => "KVM"@,
        HostOs::Other => "unknown"@,
    }
}

/// Name of the native back end of an operating system.
pub fn backend_name(os: HostOs) -> (s: &'static str)
    ensures
        s@ == spec_backend_name(os),
{
    match os {
        HostOs::Windows => "WHVP",
        HostOs::MacOs => "Hypervisor Framework",
        HostOs::Linux => "KVM",
        HostOs::Other => "unknown",
    }
}

/// The back end chosen for a host.
#[derive(Debug)]
pub enum Backend {
    /// Windows Hypervisor Platform; the caller opens the partition.
    Whvp,
    /// Hypervisor Framework.
    Hvf(HvfBackend),
    /// KVM; the caller opens `/dev/kvm`.
    Kvm,
}

/// The refusal of a WHVP back end in a build without it.
pub open spec fn whvp_missing_message() -> Seq<char> {
    "WHVP backend requires Windows + 'whvp' feature. Build with: cargo build --features whvp"@
}

/// The refusal of a KVM back end in a build without it.
pub open spec fn kvm_missing_message() -> Seq<char> {
    "KVM backend requires Linux + 'kvm' feature. Build with: cargo build --features kvm"@
}

/// Chooses the native back end of the host: WHVP on Windows and KVM on Linux when that
/// back end was compiled in (refused otherwise), the Hypervisor Framework on macOS; other
/// systems are refused.
pub fn create(f: &HostFacts) -> (r: Result<Backend, Error>)
    ensures
        (f.os == HostOs::Windows && f.whvp_enabled) <==> r matches Ok(Backend::Whvp),
        f.os == HostOs::MacOs <==> r matches Ok(Backend::Hvf(_)),
        (f.os == HostOs::Linux && f.kvm_enabled) <==> r matches Ok(Backend::Kvm),
        f.os == HostOs::Windows && !f.whvp_enabled ==> (r matches Err(Error::Vmm(m)) && m@ == whvp_missing_message()),
        f.os == HostOs::Linux && !f.kvm_enabled ==> (r matches Err(Error::Vmm(m)) && m@ == kvm_missing_message()),
        f.os == HostOs::Other ==> (r matches Err(Error::Vmm(m)) && m@ == "unsupported platform"@),
{
    match f.os {
        HostOs::Windows => if f.whvp_enabled {
            Ok(Backend::Whvp)
        } else {
            Err(Error::Vmm(String::from_str("WHVP backend requires Windows + 'whvp' feature. Build with: cargo build --features whvp")))
        },
        HostOs::MacOs => match HvfBackend::new() {
            Ok(b) => Ok(Backend::Hvf(b)),
            Err(e) => Err(e),
        },
        HostOs::Linux => if f.kvm_enabled {
            Ok(Backend::Kvm)
        } else {
            Err(Error::Vmm(String::from_str("KVM backend requires Linux + 'kvm' feature. Build with: cargo build --features kvm")))
        },
        HostOs::Other => Err(Error::Vmm(String::from_str("unsupported platform"))),
    }
}

/// Most runs of vCPU 0 in one WHVP run loop.
pub const WHVP_MAX_RUNS: u32 = 1000;

/// The WHVP exit reason of a halted vCPU.
pub const WHVP_EXIT_HALT: i32 = 8;

/// Whether the WHVP run loop goes on after an exit: it stops on a halt and on reasons
/// above 100 (cancellations and unrecoverable exceptions), and goes on otherwise.
pub fn whvp_keep_running(reason: i32) -> (b: bool)
    ensures
        b == (reason != WHVP_EXIT_HALT && reason <= 100),
{
    reason != WHVP_EXIT_HALT && reason <= 100
}

/// A hypervisor back end.
pub trait Hypervisor {
    /// Probes whether the back end can be used on the host.
    fn probe(f: &HostFacts) -> (r: ProbeResult)
        where Self: Sized
    ;

    /// Creates the VM.
    fn create_vm(&self, config: &VmConfig) -> (r: Result<(), Error>);

    /// Starts scheduling the vCPUs.
    fn start(&self) -> (r: Result<(), Error>);

    /// Stops the VM.
    fn stop(&self) -> (r: Result<(), Error>);

    /// Runs until the VM exits and returns its exit code.
    fn run(&self) -> (r: Result<i32, Error>);

    /// The back end's name.
    fn backend_name(&self) -> (s: &'static str);
}

} // verus!
