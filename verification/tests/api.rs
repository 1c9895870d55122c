use video_summary_bot::api::vm_store::{
    apply_transition, created_line, default_cpus, default_disk, default_memory, next_state, not_found,
    name_less, op_lines, plan_create, push_line, sort_by_name, start_lines, transition_now, summarize, unix_time, validate_vm_name, ConsoleBuffers,
    CreateVmRequest, Lifecycle, RuntimeState, CONSOLE_CAPACITY, CREATE_DEFAULT_CMDLINE,
};
use video_summary_bot::api::{doctor, probe_ytdlp_short, tally, DoctorCheck};
use video_summary_bot::error::Error;
use video_summary_bot::hypervisor::ProbeResult;
use video_summary_bot::vmm::{VmConfig, VmState};

fn config_msg(r: Result<(), Error>) -> String {
    match r {
        Err(Error::Config(m)) => m,
        other => panic!("{:?}", other),
    }
}

#[test]
fn vm_names() {
    assert!(validate_vm_name("web-01_a").is_ok());
    assert_eq!(config_msg(validate_vm_name("")), "VM name cannot be empty");
    assert_eq!(
        config_msg(validate_vm_name("a b")),
        "VM name may only contain letters, digits, '-' and '_'"
    );
    assert!(validate_vm_name("名字").is_err());
}

#[test]
fn create_plan() {
    let req = CreateVmRequest::new("vm1".to_string());
    assert_eq!((req.cpus, req.memory_mb, req.disk_gb), (2, 2048, 10));
    assert_eq!((default_cpus(), default_memory(), default_disk()), (2, 2048, 10));
    let c = plan_create(req, false).unwrap();
    assert_eq!(c.name, "vm1");
    assert_eq!(c.cmdline.as_deref(), Some(CREATE_DEFAULT_CMDLINE));
    match plan_create(CreateVmRequest::new("vm1".to_string()), true) {
        Err(Error::Config(m)) => assert_eq!(m, "VM 'vm1' already exists"),
        other => panic!("{:?}", other),
    }
    let mut req = CreateVmRequest::new("vm2".to_string());
    req.cmdline = Some("quiet".to_string());
    req.cpus = 4;
    let c = plan_create(req, false).unwrap();
    assert_eq!(c.cmdline.as_deref(), Some("quiet"));
    assert_eq!(c.cpus, 4);
    assert_eq!(created_line(&c), "[vsb] VM 'vm2' created (4 vCPU, 2048 MB)");
    match not_found("x") {
        Error::Config(m) => assert_eq!(m, "VM 'x' not found"),
        other => panic!("{:?}", other),
    }
}

#[test]
fn console_buffer_keeps_last_lines() {
    let mut buf: Vec<String> = Vec::new();
    for i in 0..CONSOLE_CAPACITY + 3 {
        push_line(&mut buf, format!("line {i}"));
    }
    assert_eq!(buf.len(), CONSOLE_CAPACITY);
    assert_eq!(buf[0], "line 3");
    assert_eq!(buf[CONSOLE_CAPACITY - 1], format!("line {}", CONSOLE_CAPACITY + 2));
}

#[test]
fn console_buffers_by_name() {
    let mut b = ConsoleBuffers::new();
    b.push("a", "1".to_string());
    b.push("b", "x".to_string());
    b.push("a", "2".to_string());
    assert_eq!(b.lines("a"), vec!["1", "2"]);
    assert_eq!(b.lines("b"), vec!["x"]);
    assert!(b.lines("c").is_empty());
    b.remove("a");
    assert!(b.lines("a").is_empty());
    assert_eq!(b.lines("b"), vec!["x"]);
}

#[test]
fn transitions_and_summary() {
    let rt = RuntimeState::default();
    assert_eq!(rt.state, VmState::Created);
    let console = vec!["c1".to_string()];
    let running = apply_transition(rt, next_state(Lifecycle::Start), 1_700_000_000, &console);
    assert_eq!(running.state, VmState::Running);
    assert_eq!(running.started_at, 1_700_000_000);
    let mid = apply_transition(running.clone(), next_state(Lifecycle::RebootDown), 5, &console);
    assert_eq!(mid.state, VmState::Starting);
    assert_eq!(mid.started_at, 1_700_000_000);
    let stopped = apply_transition(running.clone(), next_state(Lifecycle::Stop), 5, &console);
    assert_eq!(stopped.started_at, 0);
    let mut spec = VmConfig::new("s".to_string());
    spec.cmdline = Some("c".to_string());
    let s = summarize(spec.clone(), running, &vec!["c2".to_string()]);
    assert_eq!(s.started_at, Some(1_700_000_000));
    assert_eq!(s.console_lines, vec!["c1", "c2"]);
    assert_eq!(s.state, VmState::Running);
    let s2 = summarize(spec, stopped, &Vec::new());
    assert_eq!(s2.started_at, None);
}

#[test]
fn lifecycle_console_lines() {
    let ok = ProbeResult::ok("KVM");
    let lines = start_lines(&ok);
    assert_eq!(lines.len(), 3);
    assert_eq!(lines[0], "[vsb] hypervisor probe: ✓ KVM (可用)");
    let bad = ProbeResult::err("KVM", "/dev/kvm not found");
    let lines = op_lines(Lifecycle::Start, &bad);
    assert_eq!(lines.len(), 2);
    assert_eq!(lines[1], "[vsb] hypervisor unavailable — build with --features whvp (Windows)");
    assert_eq!(op_lines(Lifecycle::Stop, &bad), vec!["[vsb] VM stopped"]);
    assert_eq!(op_lines(Lifecycle::RebootUp, &bad), vec!["[vsb] VM running after reboot"]);
}

#[test]
fn doctor_report_counts_required() {
    let ok = ProbeResult::ok("x");
    let bad = ProbeResult::err("y", "no");
    let r = doctor(&ok, &bad, &bad, &ok, &ok);
    assert_eq!(r.required_total, 2);
    assert_eq!(r.required_ok, 1);
    assert_eq!(r.checks.len(), 5);
    assert_eq!(r.checks[0].name, "Anthropic API");
    assert!(!r.checks[2].ok && r.checks[2].optional);
    assert_eq!(r.checks[1].detail, "✗ y (不可用: no)");
    let checks = vec![
        DoctorCheck { name: "a".into(), ok: true, optional: true, detail: String::new() },
        DoctorCheck { name: "b".into(), ok: true, optional: false, detail: String::new() },
        DoctorCheck { name: "c".into(), ok: false, optional: false, detail: String::new() },
    ];
    assert_eq!(tally(&checks), (1, 2));
    assert_eq!(probe_ytdlp_short(false).error.as_deref(), Some("not installed"));
}

#[test]
fn names_in_order() {
    assert!(name_less("a", "b"));
    assert!(name_less("ab", "abc"));
    assert!(!name_less("abc", "ab"));
    assert!(!name_less("x", "x"));
    assert!(name_less("Z", "a"));
    let mk = |n: &str| {
        let spec = VmConfig::new(n.to_string());
        summarize(spec, RuntimeState::default(), &Vec::new())
    };
    let sorted = sort_by_name(vec![mk("web"), mk("api"), mk("db"), mk("api2")]);
    let names: Vec<&str> = sorted.iter().map(|s| s.name.as_str()).collect();
    assert_eq!(names, vec!["api", "api2", "db", "web"]);
}

#[test]
fn transitions_now() {
    let r = transition_now(RuntimeState::default(), VmState::Running, &Vec::new());
    assert_eq!(r.state, VmState::Running);
    assert!(r.started_at > 1_600_000_000);
    let r = transition_now(r, VmState::Stopped, &vec!["x".to_string()]);
    assert_eq!(r.started_at, 0);
    assert_eq!(r.console_lines, vec!["x"]);
}

#[test]
fn clock_readings_to_start_times() {
    assert_eq!(unix_time(Some(1_700_000_000)), 1_700_000_000);
    assert_eq!(unix_time(None), 0);
    assert_eq!(unix_time(Some(u64::MAX)), 0);
    assert_eq!(unix_time(Some(i64::MAX as u64)), i64::MAX);
}
