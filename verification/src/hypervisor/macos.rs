//! The macOS back end (Hypervisor Framework).
//!
//! Only probing is functional: creating and running a VM is refused with an
//! error.
use vstd::prelude::*;
use vstd::string::*;

use crate::error::Error;
use crate::hypervisor::{spec_probe_hvf, HostFacts, HostOs, Hypervisor, ProbeResult};
use crate::vmm::VmConfig;

verus! {

/// The Hypervisor Framework back end.
#[derive(Debug)]
pub struct HvfBackend {
    vm_handle: Option<usize>,
}

impl HvfBackend {
    /// Whether a VM handle is held.
    pub closed spec fn spec_has_vm(&self) -> bool {
        self.vm_handle is Some
    }

    /// A back end that holds no VM yet.
    pub fn new() -> (r: Result<Self, Error>)
        ensures
            r matches Ok(b) && !b.spec_has_vm(),
    {
        Ok(HvfBackend { vm_handle: None })
    }
}

/// The error returned by an operation of this back end that is not available.
pub open spec fn hvf_unavailable(op: Seq<char>) -> Seq<char> {
    "HVF "@ + op + " not implemented"@
}

fn unavailable(op: &str) -> (e: Error)
    ensures
        e matches Error::Vmm(m) && m@ == hvf_unavailable(op@),
{
    let mut m = String::from_str("HVF ");
    m.append(op);
    m.append(" not implemented");
    Error::Vmm(m)
}

impl Hypervisor for HvfBackend {
    fn probe(f: &HostFacts) -> (r: ProbeResult)
        ensures
            r@ == spec_probe_hvf(f.os),
    {
        if f.os == HostOs::MacOs {
            ProbeResult::ok("Hypervisor Framework")
        } else {
            ProbeResult::err("Hypervisor Framework", "not running on macOS")
        }
    }

    fn create_vm(&self, config: &VmConfig) -> (r: Result<(), Error>)
        ensures
            r matches Err(Error::Vmm(m)) && m@ == hvf_unavailable("create_vm"@),
    {
        Err(unavailable("create_vm"))
    }

    fn start(&self) -> (r: Result<(), Error>)
        ensures
            r matches Err(Error::Vmm(m)) && m@ == hvf_unavailable("start"@),
    {
        Err(unavailable("start"))
    }

    fn stop(&self) -> (r: Result<(), Error>)
        ensures
            r matches Err(Error::Vmm(m)) && m@ == hvf_unavailable("stop"@),
    {
        Err(unavailable("stop"))
    }

    fn run(&self) -> (r: Result<i32, Error>)
        ensures
            r matches Err(Error::Vmm(m)) && m@ == hvf_unavailable("run"@),
    {
        Err(unavailable("run"))
    }

    fn backend_name(&self) -> (s: &'static str)
        ensures
            s@ == "Hypervisor Framework"@,
    {
        "Hypervisor Framework"
    }
}

} // verus!
