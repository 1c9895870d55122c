//! Host IPC endpoints and the guest-agent protocol.
//!
//! On Windows the endpoints are named pipes (`\\.\pipe\vsb-<vm>`), elsewhere
//! Unix sockets (`/tmp/vsb-<vm>.sock`).
use vstd::prelude::*;
use vstd::string::*;

pub mod guest_agent;

verus! {

/// The IPC endpoint of a VM.
pub open spec fn spec_ipc_path(vm_name: Seq<char>, windows: bool) -> Seq<char> {
    if windows {
        "\\\\.\\pipe\\vsb-"@ + vm_name
    } else {
        "/tmp/vsb-"@ + vm_name + ".sock"@
    }
}

/// The IPC endpoint of a VM: a named pipe on Windows, a Unix socket elsewhere.
pub fn ipc_path(vm_name: &str, windows: bool) -> (p: String)
    ensures
        p@ == spec_ipc_path(vm_name@, windows),
{
    if windows {
        let mut p = String::from_str("\\\\.\\pipe\\vsb-");
        p.append(vm_name);
        p
    } else {
        let mut p = String::from_str("/tmp/vsb-");
        p.append(vm_name);
        p.append(".sock");
        p
    }
}

/// The host side of a VM's serial channel.
pub open spec fn spec_serial_path(vm_name: Seq<char>, windows: bool) -> Seq<char> {
    if windows {
        "\\\\.\\pipe\\vsb-serial-"@ + vm_name
    } else {
        "/tmp/vsb-serial-"@ + vm_name + ".sock"@
    }
}

/// The host side of a VM's serial channel, to which the guest agent client connects.
pub fn serial_path(vm_name: &str, windows: bool) -> (p: String)
    ensures
        p@ == spec_serial_path(vm_name@, windows),
{
    if windows {
        let mut p = String::from_str("\\\\.\\pipe\\vsb-serial-");
        p.append(vm_name);
        p
    } else {
        let mut p = String::from_str("/tmp/vsb-serial-");
        p.append(vm_name);
        p.append(".sock");
        p
    }
}

} // verus!
