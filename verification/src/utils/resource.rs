//! Probing the VM images directory (kernels, initramfs, rootfs).
use vstd::prelude::*;
use vstd::string::*;

use crate::hypervisor::{probe_err, probe_ok, ProbeResult};

verus! {

/// The sub-directories the images directory must hold, in the order checked.
pub fn required_dirs() -> (v: Vec<&'static str>)
    ensures
        v@.len() == 3,
        v@[0]@ == "rootfs"@,
        v@[1]@ == "kernels"@,
        v@[2]@ == "initramfs"@,
{
    vec!["rootfs", "kernels", "initramfs"]
}

/// The probe of the images directory `dir`, given whether it exists and the first
/// required sub-directory that is missing.
pub fn probe(dir: &str, dir_exists: bool, missing: Option<&str>) -> (r: ProbeResult)
    ensures
        !dir_exists ==> r@ == probe_err("resources"@, dir@ + " does not exist"@),
        dir_exists && missing is Some ==> r@ == probe_err("resources"@, "missing: "@ + dir@ + "/"@ + missing->0@),
        dir_exists && missing is None ==> r@ == probe_ok("resources"@),
{
    if !dir_exists {
        let mut m = String::from_str(dir);
        m.append(" does not exist");
        return ProbeResult::err("resources", m.as_str());
    }
    match missing {
        Some(sub) => {
            let mut m = String::from_str("missing: ");
            m.append(dir);
            m.append("/");
            m.append(sub);
            ProbeResult::err("resources", m.as_str())
        },
        None => ProbeResult::ok("resources"),
    }
}

} // verus!
