//! The command-line interface: the commands' options and what they compute.
//!
//! - [`system`] — `doctor` / `info`
//! - [`vm`] — VM lifecycle
//! - [`summary`] — `summarize` / `crawl`
//! - [`gui`] — the desktop window
use vstd::prelude::*;

pub mod gui;
pub mod summary;
pub mod system;
pub mod vm;

use crate::daemon::{DaemonCmd, ServeCmd};

verus! {

/// The parsed command line.
#[derive(Debug, Clone)]
pub struct Cli {
    /// Options of every command.
    pub global: GlobalOpts,
    /// The command.
    pub command: Command,
}

/// Options of every command.
#[derive(Debug, Clone)]
pub struct GlobalOpts {
    /// Verbosity (`-v`, `-vv`, `-vvv`).
    pub verbose: u8,
    /// Configuration file.
    pub config: Option<String>,
    /// Log format (`text` or `json`, default `text`).
    pub log_format: String,
}

/// The commands.
#[derive(Debug, Clone)]
pub enum Command {
    /// Health check.
    Doctor(system::DoctorCmd),
    /// System information.
    Info(system::InfoCmd),
    /// VM lifecycle.
    Vm(vm::VmCmd),
    /// Summarize one video.
    Summarize(summary::SummarizeCmd),
    /// Collect comments or bullet comments only.
    Crawl(summary::CrawlCmd),
    /// Daemon management.
    Daemon(DaemonCmd),
    /// Serve the HTTP API.
    Serve(ServeCmd),
    /// Open the desktop window.
    Gui(gui::GuiCmd),
}

} // verus!
