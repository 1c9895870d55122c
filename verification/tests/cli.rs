use video_summary_bot::cli::summary::{
    build_summarize_prompt, output_file_name, system_prompt, url_to_filename, CrawlLevel,
};
use video_summary_bot::cli::system::{
    check_line, doctor_outcome, meminfo_total_mb, parse_u64, probe_cookies, probe_ytdlp, ytdlp_names, SystemInfo,
};
use video_summary_bot::cli::vm::{first_missing, BootCmd, BootStart, CreateCmd, NameCmd, VmCmd};
use video_summary_bot::hypervisor::{HostOs, ProbeResult};

#[test]
fn crawl_levels() {
    assert_eq!(CrawlLevel::Light.as_str(), "light");
    assert_eq!(CrawlLevel::Standard.as_str(), "standard");
    assert_eq!(CrawlLevel::Full.as_str(), "full");
}

#[test]
fn summarize_prompt_names_depth_and_link_twice() {
    let p = build_summarize_prompt("https://v/1", &CrawlLevel::Light, None);
    assert!(p.starts_with("请分析以下视频并生成简要总结（3-5 个要点）：\n\n视频链接：https://v/1\n\n请按照"));
    assert_eq!(p.matches("https://v/1").count(), 2);
    assert!(p.ends_with("并说明限制。"));
    let with_text = build_summarize_prompt("https://v/1", &CrawlLevel::Full, Some("【视频标题】T\n\n【字幕内容】\nhello"));
    assert!(with_text.starts_with(
        "请分析以下视频并生成深度总结（完整时间线 + 详细分析 + 评论区情绪分析 + 总体评价）：\n\n视频链接：https://v/1\n\n以下是该视频的字幕与信息：\n【视频标题】T\n\n【字幕内容】\nhello\n\n请按照"
    ));
    assert_eq!(
        system_prompt("English"),
        "你是一个专业的视频内容分析助手。用户会给你一个视频链接，请对该视频进行全面分析并生成结构化的总结报告。请用English输出。"
    );
}

#[test]
fn file_names_from_urls() {
    assert_eq!(url_to_filename("https://www.bilibili.com/video/BV1xx"), "https___www_bilibili_com_video_BV1xx");
    assert_eq!(url_to_filename("__a-b__"), "a-b");
    assert_eq!(url_to_filename("视频/1"), "视频_1");
    let long = "a".repeat(100);
    assert_eq!(url_to_filename(&long).len(), 80);
    assert_eq!(output_file_name("x?y"), "x_y.md");
    assert_eq!(url_to_filename("///"), "");
}

#[test]
fn doctor_verdict() {
    let ok = ProbeResult::ok("a");
    let bad = ProbeResult::err("b", "c");
    let o = doctor_outcome(&ok, &ok);
    assert_eq!((o.required_ok, o.required_total, o.exit_code), (2, 2, 0));
    assert!(!o.fix_llm && !o.fix_ytdlp);
    let o = doctor_outcome(&bad, &ok);
    assert_eq!((o.required_ok, o.exit_code), (1, 1));
    assert!(o.fix_llm && !o.fix_ytdlp);
}

#[test]
fn doctor_lines() {
    let ok = ProbeResult::ok("yt-dlp");
    assert_eq!(check_line("yt-dlp", &ok, false), format!("  ✅ {:<30} {}", "yt-dlp", "yt-dlp"));
    let bad = ProbeResult::err("x", "missing");
    assert_eq!(check_line("FFmpeg (ASR)", &bad, true), format!("  ⬜ {:<30} {}", "FFmpeg (ASR)", "missing"));
    let bad2 = ProbeResult { available: false, backend: "x".into(), error: None };
    assert_eq!(check_line("Anthropic API", &bad2, false), format!("  ❌ {:<30} {}", "Anthropic API", "不可用"));
    assert_eq!(check_line("cookies.txt (B站/YouTube)", &ok, true), format!("  ✅ {:<30} {}", "cookies.txt (B站/YouTube)", "yt-dlp"));
}

#[test]
fn dependency_probes() {
    assert_eq!(ytdlp_names(HostOs::Windows), vec!["yt-dlp.exe", "yt-dlp"]);
    assert_eq!(ytdlp_names(HostOs::Linux), vec!["yt-dlp"]);
    assert!(probe_ytdlp(true).is_ok());
    assert_eq!(probe_ytdlp(false).error.as_deref(), Some("未安装 - 运行: pip install yt-dlp"));
    assert_eq!(probe_cookies(Some("./cookies.txt")).backend, "找到 ./cookies.txt");
    assert!(!probe_cookies(None).is_ok());
}

#[test]
fn meminfo_parsing() {
    let text = "MemFree: 10 kB\nMemTotal:       16318480 kB\nSwap: 0 kB\n";
    assert_eq!(meminfo_total_mb(text), 16318480 / 1024);
    assert_eq!(meminfo_total_mb("MemTotal: abc kB\nMemTotal: 2048 kB\n"), 2);
    assert_eq!(meminfo_total_mb("nothing here"), 0);
    assert_eq!(meminfo_total_mb(""), 0);
    assert_eq!(parse_u64(&"+42".chars().collect()), Some(42));
    assert_eq!(parse_u64(&"18446744073709551615".chars().collect()), Some(u64::MAX));
    assert_eq!(parse_u64(&"18446744073709551616".chars().collect()), None);
    assert_eq!(parse_u64(&"".chars().collect()), None);
    assert_eq!(parse_u64(&"+".chars().collect()), None);
    assert_eq!(parse_u64(&"1a".chars().collect()), None);
}

#[test]
fn system_info_table() {
    let y = ProbeResult::ok("yt-dlp");
    let c = ProbeResult::err("Anthropic agent", "k");
    let info = SystemInfo::gather("0.1.0", "linux", "unix", HostOs::Linux, None, Some("MemTotal: 2048 kB\n"), &y, &c);
    assert_eq!(info.cpu_count, 1);
    assert_eq!(info.total_memory_mb, 2);
    assert_eq!(info.hypervisor, "KVM");
    let t = info.table();
    assert!(t.starts_with("version       : 0.1.0\nplatform      : linux\nhypervisor    : KVM\ncpu count     : 1\ntotal memory  : 2 MB\n"));
    assert!(t.ends_with("llm           : ✗ Anthropic agent (不可用: k)\n"));
}

#[test]
fn vm_commands() {
    let b = BootCmd::new();
    assert_eq!(b.name, "test-vm");
    assert_eq!(b.timeout_secs, 10);
    let (k, i, r) = b.image_paths();
    assert_eq!(k, "./assets/kernels/vmlinuz");
    assert_eq!(i, "./assets/initramfs/initrd.img");
    assert_eq!(r, "./assets/rootfs/rootfs.img");
    let c = b.vm_config(k, i, r);
    assert_eq!(c.memory_mb, 2048);
    assert_eq!(c.cmdline.as_deref(), Some(b.cmdline.as_str()));
    assert_eq!(first_missing(true, false, false), Some("initrd"));
    assert_eq!(first_missing(true, true, true), None);
    let cmd = VmCmd::Start(NameCmd { name: "x".to_string() });
    assert_eq!(cmd.name(), "start");
    assert_eq!(cmd.placeholder_exit_code(), Some(0));
    assert_eq!(VmCmd::Boot(BootCmd::new()).placeholder_exit_code(), None);
    let cc = CreateCmd::new("n".to_string());
    assert_eq!((cc.cpus, cc.memory, cc.disk), (2, 2048, 10));
}

#[test]
fn boot_start_exits_on_missing_image() {
    let b = BootCmd::new();
    match b.start(true, false, true) {
        BootStart::Missing { label, path, exit_code } => {
            assert_eq!(label, "initrd");
            assert_eq!(path, "./assets/initramfs/initrd.img");
            assert_eq!(exit_code, 1);
        }
        other => panic!("{:?}", other),
    }
    match b.start(false, false, false) {
        BootStart::Missing { label, exit_code, .. } => assert_eq!((label.as_str(), exit_code), ("kernel", 1)),
        other => panic!("{:?}", other),
    }
    match b.start(true, true, true) {
        BootStart::Boot(c) => {
            assert_eq!(c.name, "test-vm");
            assert_eq!(c.rootfs.as_deref(), Some("./assets/rootfs/rootfs.img"));
        }
        other => panic!("{:?}", other),
    }
}
