//! The desktop window (a native window embedding the local web UI).
use vstd::prelude::*;
use vstd::string::*;

use crate::error::Error;

verus! {

/// Options of the desktop window.
#[derive(Debug, Clone, Copy, PartialEq, Eq, Structural)]
pub struct DesktopOpts {
    /// Width in pixels.
    pub width: u32,
    /// Height in pixels.
    pub height: u32,
}

impl Default for DesktopOpts {
    /// 1280 by 840 pixels.
    fn default() -> (o: Self)
        ensures
            o.width == 1280,
            o.height == 840,
    {
        DesktopOpts { width: 1280, height: 840 }
    }
}

/// The error of a build without the desktop window.
pub open spec fn gui_missing_message() -> Seq<char> {
    "桌面 GUI 未编译进此构建。请运行: cargo build --features gui"@
}

/// Decides whether the window can be opened: a build without the window refuses with a
/// command-line error; otherwise the caller opens it with `opts`.
pub fn run(opts: DesktopOpts, gui_compiled: bool) -> (r: Result<DesktopOpts, Error>)
    ensures
        gui_compiled ==> r == Ok::<DesktopOpts, Error>(opts),
        !gui_compiled ==> (r matches Err(Error::Cli(m)) && m@ == gui_missing_message()),
{
    if gui_compiled {
        Ok(opts)
    } else {
        Err(Error::Cli(String::from_str("桌面 GUI 未编译进此构建。请运行: cargo build --features gui")))
    }
}

} // verus!
