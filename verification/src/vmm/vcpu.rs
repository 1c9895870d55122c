//! Virtual CPU state, exits and the decisions taken on them.
use vstd::prelude::*;

verus! {

/// Number of general-purpose registers kept per vCPU.
pub const VCPU_GPR_COUNT: usize = 16;

/// The state of one virtual CPU.
#[derive(Debug, Clone)]
pub struct VcpuState {
    /// vCPU index inside the VM, from 0.
    pub id: u32,
    /// Whether the vCPU executed HLT.
    pub halted: bool,
    /// General-purpose registers (rax, rbx, rcx, rdx, rsi, rdi, rbp, r8-r15, ...).
    pub regs: Vec<u64>,
    /// Instruction pointer.
    pub rip: u64,
    /// Stack pointer.
    pub rsp: u64,
    /// Flags (bit 1 is reserved and reads 1).
    pub rflags: u64,
}

impl VcpuState {
    /// A vCPU with all registers zero, not halted, and RFLAGS = 0x2.
    pub fn new(id: u32) -> (v: Self)
        ensures
            v.id == id,
            !v.halted,
            v.regs@ == Seq::new(VCPU_GPR_COUNT as nat, |i: int| 0u64),
            v.rip == 0,
            v.rsp == 0,
            v.rflags == 0x2,
    {
        let regs: Vec<u64> = vec![0u64; VCPU_GPR_COUNT];
        assert(regs@ =~= Seq::new(VCPU_GPR_COUNT as nat, |i: int| 0u64));
        VcpuState { id, halted: false, regs, rip: 0, rsp: 0, rflags: 0x2 }
    }
}

/// Direction of a port or MMIO access.
#[derive(Debug, Clone, Copy, PartialEq, Eq, Structural)]
pub enum IoDirection {
    /// Guest reads.
    In,
    /// Guest writes.
    Out,
}

/// Why a vCPU stopped running.
#[derive(Debug, Clone, Copy, PartialEq, Eq, Structural)]
pub enum VcpuExit {
    /// Unknown reason.
    Unknown,
    /// HLT.
    Halt,
    /// The guest asked to power off.
    Shutdown,
    /// Port I/O.
    Io { port: u16, direction: IoDirection, size: u8 },
    /// MMIO.
    Mmio { addr: u64, direction: IoDirection, size: u8 },
    /// Entry failure.
    FailEntry { code: u32 },
}

/// What to do after handling an exit.
#[derive(Debug, Clone, Copy, PartialEq, Eq, Structural)]
pub enum VcpuAction {
    /// Run the vCPU again.
    Continue,
    /// Yield and run later.
    Reschedule,
    /// Stop the VM.
    Stop,
}

/// The I/O port of the first serial port (COM1).
pub const COM1_PORT: u16 = 0x3F8;

/// A KVM exit as the run loop sees it.
#[derive(Debug, Clone, PartialEq, Eq)]
pub enum KvmExit {
    /// Port read of `len` bytes.
    IoIn { port: u16, len: usize },
    /// Port write of `data`.
    IoOut { port: u16, data: Vec<u8> },
    /// MMIO read of `len` bytes.
    MmioRead { addr: u64, len: usize },
    /// MMIO write of `data`.
    MmioWrite { addr: u64, data: Vec<u8> },
    /// HLT.
    Hlt,
    /// Triple fault / shutdown.
    Shutdown,
    /// A system event of the given type.
    SystemEvent(u32),
    /// The hardware refused to enter the guest.
    FailEntry { reason: u64, cpu: u32 },
    /// KVM internal error.
    InternalError,
    /// Any other exit.
    Other,
}

/// What the run loop does next.
#[derive(Debug, Clone, Copy, PartialEq, Eq, Structural)]
pub enum KvmAction {
    /// Run the vCPU again.
    Continue,
    /// The vCPU halted: stop with exit code 0.
    Halt,
    /// The guest shut down: stop with exit code 0.
    Shutdown,
    /// Fatal exit: stop with the given code.
    Error(i32),
}

/// The decision for each exit: port and MMIO accesses continue, HLT halts, shutdowns and
/// system events shut down, entry failures and internal errors stop with code 1, and any
/// other exit continues.
pub open spec fn spec_kvm_action(exit: KvmExit) -> KvmAction {
    match exit {
        KvmExit::IoIn { .. } | KvmExit::IoOut { .. } | KvmExit::MmioRead { .. } | KvmExit::MmioWrite { .. } => KvmAction::Continue,
        KvmExit::Hlt => KvmAction::Halt,
        KvmExit::Shutdown | KvmExit::SystemEvent(_) => KvmAction::Shutdown,
        KvmExit::FailEntry { .. } | KvmExit::InternalError => KvmAction::Error(1),
        KvmExit::Other => KvmAction::Continue,
    }
}

/// Decides what the run loop does after `exit`.
pub fn handle_kvm_exit(exit: &KvmExit) -> (a: KvmAction)
    ensures
        a == spec_kvm_action(*exit),
{
    match exit {
        KvmExit::IoIn { .. } => KvmAction::Continue,
        KvmExit::IoOut { .. } => KvmAction::Continue,
        KvmExit::MmioRead { .. } => KvmAction::Continue,
        KvmExit::MmioWrite { .. } => KvmAction::Continue,
        KvmExit::Hlt => KvmAction::Halt,
        KvmExit::Shutdown => KvmAction::Shutdown,
        KvmExit::SystemEvent(_) => KvmAction::Shutdown,
        KvmExit::FailEntry { .. } => KvmAction::Error(1),
        KvmExit::InternalError => KvmAction::Error(1),
        KvmExit::Other => KvmAction::Continue,
    }
}

/// The bytes answered to a port read of `len` bytes from an unknown device: all 0xFF.
pub fn io_in_response(len: usize) -> (v: Vec<u8>)
    ensures
        v@ == Seq::new(len as nat, |i: int| 0xFFu8),
{
    let v: Vec<u8> = vec![0xFFu8; len];
    assert(v@ =~= Seq::new(len as nat, |i: int| 0xFFu8));
    v
}

/// The byte a port write sends to the host console: the first byte of a write to COM1.
pub fn serial_output(port: u16, data: &[u8]) -> (c: Option<u8>)
    ensures
        c == (if port == COM1_PORT && data@.len() > 0 { Some(data@[0]) } else { None::<u8> }),
{
    if port == COM1_PORT && data.len() > 0 {
        Some(data[0])
    } else {
        None
    }
}

/// Where the vCPU loop goes after an action: on (`None`), or out with an exit code.
pub open spec fn spec_loop_exit_code(a: KvmAction) -> Option<i32> {
    match a {
        KvmAction::Continue => None,
        KvmAction::Halt => Some(0i32),
        KvmAction::Shutdown => Some(0i32),
        KvmAction::Error(c) => Some(c),
    }
}

/// Where the vCPU loop goes after an action: on, or out with an exit code (0 after a
/// halt or a shutdown, the error's code after a fatal exit).
pub fn loop_exit_code(a: KvmAction) -> (r: Option<i32>)
    ensures
        r == spec_loop_exit_code(a),
{
    match a {
        KvmAction::Continue => None,
        KvmAction::Halt => Some(0),
        KvmAction::Shutdown => Some(0),
        KvmAction::Error(c) => Some(c),
    }
}

/// What each exit does to the vCPU run: a port or MMIO access by the guest never ends
/// the run (the device is served and the vCPU goes on), nor does an exit of another kind;
/// a halt, a shutdown or a system event ends it with exit code 0; a refused entry or a
/// KVM internal error ends it with exit code 1.
pub proof fn law_exits_and_the_run(e: KvmExit)
    ensures
        (e is IoIn || e is IoOut || e is MmioRead || e is MmioWrite || e is Other) ==> {
            &&& spec_kvm_action(e) == KvmAction::Continue
            &&& spec_loop_exit_code(spec_kvm_action(e)) is None
        },
        (e is Hlt || e is Shutdown || e is SystemEvent) ==> spec_loop_exit_code(spec_kvm_action(e)) == Some(0i32),
        (e is FailEntry || e is InternalError) ==> spec_loop_exit_code(spec_kvm_action(e)) == Some(1i32),
        e is Hlt ==> spec_kvm_action(e) == KvmAction::Halt,
        (e is Shutdown || e is SystemEvent) ==> spec_kvm_action(e) == KvmAction::Shutdown,
{
}

} // verus!
