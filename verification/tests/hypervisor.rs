use video_summary_bot::error::Error;
use video_summary_bot::hypervisor::{
    backend_name, create, probe, probe_kvm, probe_whvp, whvp_keep_running, Backend, HostFacts, HostOs, Hypervisor, HvfBackend,
    ProbeResult,
};
use video_summary_bot::vmm::VmConfig;

fn facts(os: HostOs) -> HostFacts {
    HostFacts {
        os,
        kvm_enabled: false,
        whvp_enabled: false,
        dev_kvm_mode: None,
        kvm_opened: false,
        whvp_present: false,
    }
}

#[test]
fn probe_results_render() {
    assert_eq!(ProbeResult::ok("KVM").render(), "✓ KVM (可用)");
    assert_eq!(ProbeResult::err("KVM", "x").render(), "✗ KVM (不可用: x)");
    let r = ProbeResult { available: false, backend: "B".into(), error: None };
    assert_eq!(r.render(), "✗ B (不可用)");
}

#[test]
fn kvm_probe_decisions() {
    let mut f = facts(HostOs::Linux);
    assert_eq!(probe_kvm(&f).error.as_deref(), Some("/dev/kvm not found"));
    f.dev_kvm_mode = Some(0o660);
    assert_eq!(
        probe_kvm(&f).error.as_deref(),
        Some("feature 'kvm' not enabled - build with --features kvm")
    );
    f.kvm_enabled = true;
    assert_eq!(probe_kvm(&f).error.as_deref(), Some("failed to open /dev/kvm"));
    f.kvm_opened = true;
    assert!(probe_kvm(&f).is_ok());
    f.dev_kvm_mode = Some(0o600);
    assert_eq!(probe_kvm(&f).error.as_deref(), Some("/dev/kvm not readable/writable"));
    assert_eq!(probe_kvm(&facts(HostOs::MacOs)).error.as_deref(), Some("not running on Linux"));
}

#[test]
fn whvp_and_host_probe() {
    let mut f = facts(HostOs::Windows);
    assert_eq!(probe_whvp(&f).error.as_deref(), Some("feature 'whvp' not enabled - build with --features whvp"));
    f.whvp_enabled = true;
    assert_eq!(probe_whvp(&f).error.as_deref(), Some("hypervisor not present or not enabled"));
    f.whvp_present = true;
    assert!(probe(&f).is_ok());
    assert_eq!(probe(&facts(HostOs::MacOs)).backend, "Hypervisor Framework");
    assert!(probe(&facts(HostOs::MacOs)).is_ok());
    assert_eq!(probe(&facts(HostOs::Other)).error.as_deref(), Some("unsupported platform"));
}

#[test]
fn backends() {
    assert_eq!(backend_name(HostOs::Windows), "WHVP");
    assert_eq!(backend_name(HostOs::Linux), "KVM");
    let mut linux = facts(HostOs::Linux);
    linux.kvm_enabled = true;
    assert!(matches!(create(&linux), Ok(Backend::Kvm)));
    linux.kvm_enabled = false;
    match create(&linux) {
        Err(Error::Vmm(m)) => assert_eq!(m, "KVM backend requires Linux + 'kvm' feature. Build with: cargo build --features kvm"),
        other => panic!("{:?}", other),
    }
    let mut windows = facts(HostOs::Windows);
    windows.whvp_enabled = false;
    match create(&windows) {
        Err(Error::Vmm(m)) => assert_eq!(m, "WHVP backend requires Windows + 'whvp' feature. Build with: cargo build --features whvp"),
        other => panic!("{:?}", other),
    }
    windows.whvp_enabled = true;
    assert!(matches!(create(&windows), Ok(Backend::Whvp)));
    assert!(matches!(create(&facts(HostOs::MacOs)), Ok(Backend::Hvf(_))));
    match create(&facts(HostOs::Other)) {
        Err(Error::Vmm(m)) => assert_eq!(m, "unsupported platform"),
        other => panic!("{:?}", other),
    }
    let h = HvfBackend::new().unwrap();
    assert_eq!(h.backend_name(), "Hypervisor Framework");
    match h.create_vm(&VmConfig::new("x".into())) {
        Err(Error::Vmm(m)) => assert_eq!(m, "HVF create_vm not implemented"),
        other => panic!("{:?}", other),
    }
    assert!(h.run().is_err());
}

#[test]
fn whvp_loop_decisions() {
    assert!(!whvp_keep_running(8));
    assert!(whvp_keep_running(2));
    assert!(whvp_keep_running(100));
    assert!(!whvp_keep_running(4097));
}
