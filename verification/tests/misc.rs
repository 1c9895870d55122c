use std::cell::Cell;
use std::rc::Rc;
use video_summary_bot::cli::gui::GuiCmd;
use video_summary_bot::config::{OutputConfig, VmDefaults};
use video_summary_bot::daemon::{run, run_serve, DaemonCmd, ServeCmd};
use video_summary_bot::error::Error;
use video_summary_bot::guest_control::StopControl;
use video_summary_bot::gui::DesktopOpts;
use video_summary_bot::image::qcow2::Qcow2Image;
use video_summary_bot::image::{create_image, open_image, ImageFormat, ImageHandle};
use video_summary_bot::summarizer::asr::AsrTranscriber;
use video_summary_bot::summarizer::timeline::TimelineSegmenter;
use video_summary_bot::utils::binary::{exe_name, probe_named};
use video_summary_bot::utils::log_level;
use video_summary_bot::utils::resource;

#[test]
fn config_defaults() {
    let d = VmDefaults::default();
    assert_eq!((d.cpus, d.memory_mb, d.disk_gb), (2, 2048, 10));
    let o = OutputConfig::default();
    assert_eq!(o.dir, "./output");
    assert!(o.save_raw_data && o.generate_timeline_json);
}

#[test]
fn gui_options() {
    let o = DesktopOpts::default();
    assert_eq!((o.width, o.height), (1280, 840));
    let c = GuiCmd { width: 10, height: 20 };
    assert_eq!(c.desktop_opts(), DesktopOpts { width: 10, height: 20 });
    match video_summary_bot::gui::run(o, false) {
        Err(Error::Cli(m)) => assert!(m.contains("cargo build --features gui")),
        other => panic!("{:?}", other),
    }
    assert_eq!(video_summary_bot::gui::run(o, true).unwrap(), o);
}

#[test]
fn images() {
    assert_eq!(ImageFormat::from_path("disk.qcow2"), ImageFormat::Qcow2);
    assert_eq!(ImageFormat::from_path("disk.img"), ImageFormat::Raw);
    assert_eq!(ImageFormat::from_path("qcow2"), ImageFormat::Raw);
    assert_eq!(ImageFormat::from_path("dir.qcow2/disk"), ImageFormat::Raw);
    match create_image("a.img", ImageFormat::Raw, 1024) {
        Ok(ImageHandle::Raw { path, size_bytes }) => {
            assert_eq!(path, "a.img");
            assert_eq!(size_bytes, Some(1024));
        }
        other => panic!("{:?}", other),
    }
    match create_image("a.qcow2", ImageFormat::Qcow2, 1024) {
        Err(Error::Image(m)) => assert_eq!(m, "qcow2 create not implemented yet"),
        other => panic!("{:?}", other),
    }
    match open_image("b.qcow2") {
        Err(Error::Image(m)) => assert_eq!(m, "qcow2 open not implemented yet: b.qcow2"),
        other => panic!("{:?}", other),
    }
    assert!(matches!(open_image("b.raw"), Ok(ImageHandle::Raw { size_bytes: None, .. })));
    assert!(Qcow2Image::create("x", 1).is_err());
}

#[test]
fn daemon_and_summarizer() {
    assert_eq!(run(DaemonCmd::Status), 0);
    assert_eq!(DaemonCmd::Start.name(), "start");
    assert_eq!(run_serve(&ServeCmd { port: 8080, bind: "0.0.0.0".into() }), 0);
    let a = AsrTranscriber::new("base".to_string());
    assert_eq!(a.model, "base");
    assert_eq!(a.transcribe("v.mp4").unwrap(), "");
    assert_eq!(TimelineSegmenter::new(30).precision, 30);
}

#[test]
fn utilities() {
    assert_eq!(log_level(0), "info");
    assert_eq!(log_level(1), "debug");
    assert_eq!(log_level(7), "trace");
    assert_eq!(exe_name("ffmpeg", true), "ffmpeg.exe");
    assert_eq!(exe_name("ffmpeg", false), "ffmpeg");
    assert_eq!(probe_named("ffmpeg", true).backend, "ffmpeg");
    assert_eq!(probe_named("ffmpeg", false).backend, "not found");
    assert_eq!(resource::probe("/a", false, None).error.as_deref(), Some("/a does not exist"));
    assert_eq!(resource::probe("/a", true, Some("kernels")).error.as_deref(), Some("missing: /a/kernels"));
    assert!(resource::probe("/a", true, None).is_ok());
    assert_eq!(resource::required_dirs(), vec!["rootfs", "kernels", "initramfs"]);
}

#[test]
fn stop_hook_is_called_only_when_registered() {
    let count = Rc::new(Cell::new(0usize));
    let mut ctl: StopControl<Box<dyn Fn()>> = StopControl::new();
    assert!(!ctl.request_stop());
    let c = count.clone();
    ctl.set_stop_hook(Some(Box::new(move || {
        c.set(c.get() + 1);
    })));
    assert!(ctl.request_stop());
    assert_eq!(count.get(), 1);
    ctl.set_stop_hook(None);
    assert!(!ctl.request_stop());
    assert_eq!(count.get(), 1);
}

#[test]
fn error_rendering() {
    assert_eq!(Error::Vmm("boom".into()).render(), "vmm error: boom");
    assert_eq!(Error::Config("c".into()).render(), "config error: c");
    assert_eq!(Error::Serde("s".into()).render(), "serialization error: s");
    assert_eq!(Error::Other("plain".into()).render(), "plain");
}
