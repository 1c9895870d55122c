//! The daemon commands.
use vstd::prelude::*;

verus! {

/// `daemon` sub-commands.
#[derive(Debug, Clone, Copy, PartialEq, Eq, Structural)]
pub enum DaemonCmd {
    /// Start the daemon.
    Start,
    /// Stop the daemon.
    Stop,
    /// Show its status.
    Status,
}

/// Options of `serve`.
#[derive(Debug, Clone)]
pub struct ServeCmd {
    /// Port (default 8080).
    pub port: u16,
    /// Address (default `0.0.0.0`).
    pub bind: String,
}

impl DaemonCmd {
    /// The sub-command's name, as typed.
    pub fn name(&self) -> (s: &'static str)
        ensures
            s@ == match self {
                DaemonCmd::Start => "start"@,
                DaemonCmd::Stop => "stop"@,
                DaemonCmd::Status => "status"@,
            },
    {
        match self {
            DaemonCmd::Start => "start",
            DaemonCmd::Stop => "stop",
            DaemonCmd::Status => "status",
        }
    }
}

/// Exit code of a daemon sub-command: every one reports that it is not available yet
/// and succeeds.
pub fn run(cmd: DaemonCmd) -> (code: i32)
    ensures
        code == 0,
{
    0
}

/// Exit code of `serve` in its command-line form, which is not available yet.
pub fn run_serve(cmd: &ServeCmd) -> (code: i32)
    ensures
        code == 0,
{
    0
}

} // verus!
