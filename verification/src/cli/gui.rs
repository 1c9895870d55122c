//! The `gui` command.
use vstd::prelude::*;

use crate::gui::DesktopOpts;

verus! {

/// Options of `gui`: the window size.
#[derive(Debug, Clone, Copy)]
pub struct GuiCmd {
    /// Window width in pixels (default 1280).
    pub width: u32,
    /// Window height in pixels (default 840).
    pub height: u32,
}

impl GuiCmd {
    /// The desktop options for these command options.
    pub fn desktop_opts(&self) -> (o: DesktopOpts)
        ensures
            o.width == self.width,
            o.height == self.height,
    {
        DesktopOpts { width: self.width, height: self.height }
    }
}

} // verus!
