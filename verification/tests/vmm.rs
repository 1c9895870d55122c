use video_summary_bot::error::Error;
use video_summary_bot::hypervisor::ProbeResult;
use video_summary_bot::vmm::boot::{
    vcpu_entry, BootAction, BootEvent, BootFlow, BootMode, BootOptions, BootPhase, RunOutcome,
    DEFAULT_BOOT_TIMEOUT_SECS,
};
use video_summary_bot::vmm::loader::{InitialRegs, BOOT_PARAMS_ADDR, GDT_ADDR, KERNEL_ADDR};
use video_summary_bot::vmm::machine::Vmm;
use video_summary_bot::vmm::vcpu::{handle_kvm_exit, io_in_response, loop_exit_code, serial_output, KvmAction, KvmExit, VcpuState};
use video_summary_bot::vmm::{VmConfig, VmState};

fn regs() -> InitialRegs {
    InitialRegs::for_linux_64(KERNEL_ADDR, BOOT_PARAMS_ADDR, 64)
}

#[test]
fn vm_config_defaults() {
    let c = VmConfig::new("demo".to_string());
    assert_eq!(c.name, "demo");
    assert_eq!(c.cpus, 2);
    assert_eq!(c.memory_mb, 2048);
    assert_eq!(c.disk_gb, 10);
    assert!(c.audio);
    assert!(c.kernel.is_none());
}

#[test]
fn vm_state_names() {
    assert!(VmState::Running.is_running());
    assert!(!VmState::Stopped.is_running());
    assert_eq!(VmState::Created.name(), "created");
    assert_eq!(VmState::Crashed.name(), "crashed");
}

#[test]
fn vcpu_state_starts_at_zero() {
    let v = VcpuState::new(3);
    assert_eq!(v.id, 3);
    assert_eq!(v.rip, 0);
}

#[test]
fn kvm_exit_decisions() {
    assert_eq!(handle_kvm_exit(&KvmExit::Hlt), KvmAction::Halt);
    assert_eq!(handle_kvm_exit(&KvmExit::Shutdown), KvmAction::Shutdown);
    assert_eq!(handle_kvm_exit(&KvmExit::SystemEvent(2)), KvmAction::Shutdown);
    assert_eq!(handle_kvm_exit(&KvmExit::InternalError), KvmAction::Error(1));
    assert_eq!(handle_kvm_exit(&KvmExit::FailEntry { reason: 7, cpu: 0 }), KvmAction::Error(1));
    assert_eq!(handle_kvm_exit(&KvmExit::IoOut { port: 0x3F8, data: vec![b'a'] }), KvmAction::Continue);
    assert_eq!(handle_kvm_exit(&KvmExit::Other), KvmAction::Continue);
    assert_eq!(io_in_response(3), vec![0xFF, 0xFF, 0xFF]);
    assert_eq!(serial_output(0x3F8, b"hi"), Some(b'h'));
    assert_eq!(serial_output(0x2F8, b"hi"), None);
    assert_eq!(serial_output(0x3F8, b""), None);
}

#[test]
fn vmm_new_and_mmio() {
    let mut c = VmConfig::new("vm1".to_string());
    c.memory_mb = 16;
    let mut vmm = Vmm::new(c).unwrap();
    assert_eq!(vmm.name(), "vm1");
    assert_eq!(vmm.state(), VmState::Created);
    vmm.set_state(VmState::Running);
    assert_eq!(vmm.state(), VmState::Running);
    assert_eq!(vmm.handle_mmio_read(0xA000_0000, 4), Some(0x7472_6976));
    assert_eq!(vmm.handle_mmio_read(0x1000, 4), None);
    assert!(vmm.handle_mmio_write(0xA000_0070, 1, 4));
    assert_eq!(vmm.handle_mmio_read(0xA000_0070, 4), Some(1));
}

#[test]
fn vmm_new_refuses_zero_ram() {
    let mut c = VmConfig::new("vm0".to_string());
    c.memory_mb = 0;
    assert!(matches!(Vmm::new(c), Err(Error::Vmm(_))));
}

#[test]
fn boot_options_default_images() {
    let c = VmConfig::new("b".to_string());
    let o = BootOptions::from_config(c, "/opt/assets").unwrap();
    assert_eq!(o.kernel, "/opt/assets/kernels/vmlinuz");
    assert_eq!(o.initrd, "/opt/assets/initramfs/initrd.img");
    assert_eq!(o.rootfs, "/opt/assets/rootfs/rootfs.img");
    assert_eq!(o.timeout_secs, DEFAULT_BOOT_TIMEOUT_SECS);
    assert_eq!(o.timeout_secs, 120);
    let mut c2 = VmConfig::new("b".to_string());
    c2.kernel = Some("k".to_string());
    let o2 = BootOptions::from_config(c2, "assets/").unwrap();
    assert_eq!(o2.kernel, "k");
    assert_eq!(o2.initrd, "assets/initramfs/initrd.img");
}

#[test]
fn boot_options_validate_reports_first_missing() {
    let o = BootOptions::from_config(VmConfig::new("b".to_string()), "a").unwrap();
    assert!(o.validate_assets(true, true, true).is_ok());
    match o.validate_assets(true, false, false) {
        Err(Error::Vmm(m)) => assert_eq!(m, "initrd not found: a/initramfs/initrd.img (run scripts/prepare-guest.sh)"),
        other => panic!("{:?}", other),
    }
    match o.validate_assets(false, true, true) {
        Err(Error::Vmm(m)) => assert!(m.starts_with("kernel not found: ")),
        other => panic!("{:?}", other),
    }
}

#[test]
fn vcpu_entry_uses_flat_gdt() {
    let e = vcpu_entry(&regs());
    assert_eq!(e.gdt_base, GDT_ADDR);
    assert_eq!(e.gdt_limit, 23);
    assert_eq!(e.rip, KERNEL_ADDR);
    assert_eq!(e.rsi, BOOT_PARAMS_ADDR);
}

fn ok_probe() -> ProbeResult {
    ProbeResult::ok("KVM")
}

#[test]
fn api_boot_runs_to_exit_code_and_clears_hook() {
    let mut f = BootFlow::new(BootMode::Api, regs(), 64 << 20, 5);
    assert!(matches!(f.step(BootEvent::Probed(ok_probe())), BootAction::CreateVm));
    match f.step(BootEvent::VmCreated(Ok(()))) {
        BootAction::MapRam { size, set_stop_hook } => {
            assert_eq!(size, 64 << 20);
            assert!(set_stop_hook);
        }
        other => panic!("{:?}", other),
    }
    assert!(matches!(f.step(BootEvent::RamMapped(Err(Error::Vmm("x".into())))), BootAction::SetEntry(_)));
    assert!(matches!(f.step(BootEvent::EntrySet(Ok(()))), BootAction::Start));
    assert!(matches!(f.step(BootEvent::Started(Ok(()))), BootAction::Run { timeout_secs: 5 }));
    match f.step(BootEvent::RunEnded(RunOutcome::Exited(3))) {
        BootAction::Finish { clear_stop_hook, result } => {
            assert!(clear_stop_hook);
            assert_eq!(result.unwrap(), 3);
        }
        other => panic!("{:?}", other),
    }
    assert_eq!(f.phase, BootPhase::Done);
}

#[test]
fn api_boot_without_hypervisor_is_an_error() {
    let mut f = BootFlow::new(BootMode::Api, regs(), 1 << 20, 5);
    match f.step(BootEvent::Probed(ProbeResult::err("KVM", "/dev/kvm not found"))) {
        BootAction::Finish { clear_stop_hook: false, result: Err(Error::Vmm(m)) } => {
            assert_eq!(m, "hypervisor not available")
        }
        other => panic!("{:?}", other),
    }
}

#[test]
fn cli_boot_without_hypervisor_exits_zero() {
    let mut f = BootFlow::new(BootMode::Cli, regs(), 1 << 20, 5);
    match f.step(BootEvent::Probed(ProbeResult::err("KVM", "/dev/kvm not found"))) {
        BootAction::Finish { clear_stop_hook: false, result: Ok(0) } => {}
        other => panic!("{:?}", other),
    }
}

#[test]
fn timeout_stops_then_exits_zero() {
    let mut f = BootFlow::new(BootMode::Api, regs(), 1 << 20, 5);
    f.step(BootEvent::Probed(ok_probe()));
    f.step(BootEvent::VmCreated(Ok(())));
    f.step(BootEvent::RamMapped(Ok(())));
    f.step(BootEvent::EntrySet(Ok(())));
    f.step(BootEvent::Started(Ok(())));
    assert!(matches!(f.step(BootEvent::RunEnded(RunOutcome::TimedOut)), BootAction::Stop));
    match f.step(BootEvent::StopDone(Ok(()))) {
        BootAction::Finish { clear_stop_hook: true, result: Ok(0) } => {}
        other => panic!("{:?}", other),
    }
}

#[test]
fn failed_run_differs_between_api_and_cli() {
    for mode in [BootMode::Api, BootMode::Cli] {
        let mut f = BootFlow::new(mode, regs(), 1 << 20, 5);
        f.step(BootEvent::Probed(ok_probe()));
        match f.step(BootEvent::VmCreated(Ok(()))) {
            BootAction::MapRam { set_stop_hook, .. } => assert_eq!(set_stop_hook, mode == BootMode::Api),
            other => panic!("{:?}", other),
        }
        f.step(BootEvent::RamMapped(Ok(())));
        f.step(BootEvent::EntrySet(Ok(())));
        f.step(BootEvent::Started(Ok(())));
        let a = f.step(BootEvent::RunEnded(RunOutcome::Failed(Error::Vmm("boom".into()))));
        match (mode, a) {
            (BootMode::Api, BootAction::Finish { clear_stop_hook: true, result: Err(Error::Vmm(m)) }) => assert_eq!(m, "boom"),
            (BootMode::Cli, BootAction::Finish { clear_stop_hook: false, result: Ok(1) }) => {}
            (_, other) => panic!("{:?}", other),
        }
    }
}

#[test]
fn boot_flow_accepts_only_the_awaited_event() {
    let f = BootFlow::new(BootMode::Api, regs(), 1 << 20, 5);
    assert!(f.accepts(&BootEvent::Probed(ok_probe())));
    assert!(!f.accepts(&BootEvent::Started(Ok(()))));
}

#[test]
fn create_vm_failure_ends_boot_with_that_error() {
    let mut f = BootFlow::new(BootMode::Cli, regs(), 1 << 20, 5);
    f.step(BootEvent::Probed(ok_probe()));
    match f.step(BootEvent::VmCreated(Err(Error::Vmm("no partition".into())))) {
        BootAction::Finish { clear_stop_hook: false, result: Err(Error::Vmm(m)) } => assert_eq!(m, "no partition"),
        other => panic!("{:?}", other),
    }
}

#[test]
fn api_failures_after_the_hook_clear_it() {
    let mut f = BootFlow::new(BootMode::Api, regs(), 1 << 20, 5);
    f.step(BootEvent::Probed(ok_probe()));
    f.step(BootEvent::VmCreated(Ok(())));
    f.step(BootEvent::RamMapped(Ok(())));
    match f.step(BootEvent::EntrySet(Err(Error::Vmm("regs".into())))) {
        BootAction::Finish { clear_stop_hook: true, result: Err(Error::Vmm(m)) } => assert_eq!(m, "regs"),
        other => panic!("{:?}", other),
    }
    let mut f = BootFlow::new(BootMode::Api, regs(), 1 << 20, 5);
    f.step(BootEvent::Probed(ok_probe()));
    f.step(BootEvent::VmCreated(Ok(())));
    f.step(BootEvent::RamMapped(Ok(())));
    f.step(BootEvent::EntrySet(Ok(())));
    match f.step(BootEvent::Started(Err(Error::Vmm("start".into())))) {
        BootAction::Finish { clear_stop_hook: true, result: Err(_) } => {}
        other => panic!("{:?}", other),
    }
    let mut f = BootFlow::new(BootMode::Api, regs(), 1 << 20, 5);
    f.step(BootEvent::Probed(ok_probe()));
    f.step(BootEvent::VmCreated(Ok(())));
    f.step(BootEvent::RamMapped(Ok(())));
    f.step(BootEvent::EntrySet(Ok(())));
    f.step(BootEvent::Started(Ok(())));
    f.step(BootEvent::RunEnded(RunOutcome::TimedOut));
    match f.step(BootEvent::StopDone(Err(Error::Vmm("stop".into())))) {
        BootAction::Finish { clear_stop_hook: true, result: Err(_) } => {}
        other => panic!("{:?}", other),
    }
}

#[test]
fn vcpu_loop_exit_codes() {
    assert_eq!(loop_exit_code(KvmAction::Continue), None);
    assert_eq!(loop_exit_code(KvmAction::Halt), Some(0));
    assert_eq!(loop_exit_code(handle_kvm_exit(&KvmExit::FailEntry { reason: 1, cpu: 0 })), Some(1));
}
