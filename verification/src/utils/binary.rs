//! Probing whether an external program is installed.
use vstd::prelude::*;
use vstd::string::*;

use crate::hypervisor::{probe_err, probe_ok, ProbeResult};

verus! {

/// The executable's file name: with `.exe` on Windows.
pub fn exe_name(cmd: &str, windows: bool) -> (n: String)
    ensures
        n@ == (if windows { cmd@ + ".exe"@ } else { cmd@ }),
{
    let mut n = String::from_str(cmd);
    if windows {
        n.append(".exe");
    }
    n
}

/// Directories searched after the path.
pub fn extra_dirs() -> (v: Vec<&'static str>)
    ensures
        v@.len() == 5,
        v@[0]@ == "D:/software/ffmpeg-8.1-full_build/bin"@,
        v@[1]@ == "D:/software/EVCapture"@,
        v@[2]@ == "D:/software/python/3115/Scripts"@,
        v@[3]@ == "/usr/local/bin"@,
        v@[4]@ == "/usr/bin"@,
{
    vec![
        "D:/software/ffmpeg-8.1-full_build/bin",
        "D:/software/EVCapture",
        "D:/software/python/3115/Scripts",
        "/usr/local/bin",
        "/usr/bin",
    ]
}

/// The probe of `cmd`, given whether its executable was found; the result is labelled
/// with the command's name.
pub fn probe_named(cmd: &str, found: bool) -> (r: ProbeResult)
    ensures
        found ==> r@ == probe_ok(cmd@),
        !found ==> r@ == probe_err("not found"@, "not found in PATH or common locations"@),
{
    if found {
        ProbeResult::ok(cmd)
    } else {
        ProbeResult::err("not found", "not found in PATH or common locations")
    }
}

/// Same as `probe_named`.
pub fn probe(cmd: &str, found: bool) -> (r: ProbeResult)
    ensures
        found ==> r@ == probe_ok(cmd@),
        !found ==> r@ == probe_err("not found"@, "not found in PATH or common locations"@),
{
    probe_named(cmd, found)
}

} // verus!
