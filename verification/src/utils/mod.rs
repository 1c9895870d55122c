//! Utilities: probing external programs and resources, log levels.
//!
//! - [`binary`] — external programs
//! - [`resource`] — the VM images directory
use vstd::prelude::*;

pub mod binary;
pub mod resource;

verus! {

/// The log level for a verbosity count: `info`, then `debug`, then `trace`.
pub fn log_level(verbose: u8) -> (l: &'static str)
    ensures
        verbose == 0 ==> l@ == "info"@,
        verbose == 1 ==> l@ == "debug"@,
        verbose >= 2 ==> l@ == "trace"@,
{
    match verbose {
        0 => "info",
        1 => "debug",
        _ => "trace",
    }
}

} // verus!
