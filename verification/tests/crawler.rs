use video_summary_bot::crawler::comments::CommentsCrawler;
use video_summary_bot::crawler::danmaku::DanmakuCrawler;
use video_summary_bot::crawler::subtitle::{
    check_metadata_output, cookie_files, detect_platform, find_ytdlp, parse_metadata, parse_srt, parse_subtitle, parse_vtt,
    run_result, strip_html_tags, subtitle_kind, subtitle_template, MetaInfo, SubtitleFetcher, SubtitleKind,
    VideoText,
};
use video_summary_bot::error::Error;

#[test]
fn vtt_text_without_timestamps_tags_and_repeats() {
    let raw = "WEBVTT\n\n00:00:00.000 --> 00:00:02.000\n<c>Hello</c> world\n\n00:00:02.000 --> 00:00:04.000\nHello world\n\n00:00:04.000 --> 00:00:06.000\nNext line\n";
    assert_eq!(parse_vtt(raw), "Hello world Next line");
}

#[test]
fn vtt_skips_notes_and_styles() {
    let raw = "WEBVTT\nNOTE a note\n\nSTYLE\n::cue {}\n\n00:01.000 --> 00:02.000\n  spoken  \n";
    assert_eq!(parse_vtt(raw), "spoken");
}

#[test]
fn vtt_text_outside_cues_is_dropped() {
    assert_eq!(parse_vtt("WEBVTT\nstray text\n"), "");
}

#[test]
fn srt_text_without_numbers_and_timestamps() {
    let raw = "1\r\n00:00:01,000 --> 00:00:02,000\r\n<i>Hi</i> there\r\n\r\n2\r\n00:00:02,000 --> 00:00:03,000\r\nHi there\r\n\r\n3\r\n00:00:03,000 --> 00:00:04,000\r\nBye\r\n";
    assert_eq!(parse_srt(raw), "Hi there Bye");
}

#[test]
fn srt_keeps_number_text_lines() {
    assert_eq!(parse_srt("1\n00:00:01,000 --> 00:00:02,000\n2024\n"), "2024");
    assert_eq!(parse_srt("1\n00:00:01,000 --> 00:00:02,000\nYear\n2024\n\n2\n00:00:02,000 --> 00:00:03,000\n42\n"), "Year 2024 42");
}

#[test]
fn srt_empty_input() {
    assert_eq!(parse_srt(""), "");
}

#[test]
fn strip_tags_and_trim() {
    assert_eq!(strip_html_tags("  <b>bold</b> <i>it</i>  "), "bold it");
    assert_eq!(strip_html_tags("a < b"), "a");
    assert_eq!(strip_html_tags("no tags"), "no tags");
}

#[test]
fn platforms_by_url() {
    assert_eq!(detect_platform("https://www.bilibili.com/video/BV1"), "哔哩哔哩 (Bilibili)");
    assert_eq!(detect_platform("https://b23.tv/x"), "哔哩哔哩 (Bilibili)");
    assert_eq!(detect_platform("https://youtu.be/abc"), "YouTube");
    assert_eq!(detect_platform("https://weibo.com/tv/1"), "微博");
    assert_eq!(detect_platform("https://www.tiktok.com/@a"), "抖音/TikTok");
    assert_eq!(detect_platform("https://example.org"), "未知平台");
}

#[test]
fn analysis_text_full() {
    let v = VideoText {
        title: "T".to_string(),
        description: "D".to_string(),
        subtitle: Some("S".to_string()),
        duration: Some(125),
        uploader: Some("U".to_string()),
        platform: "YouTube".to_string(),
    };
    assert_eq!(
        v.to_analysis_text(),
        "【视频标题】T\n\n【UP主/作者】U\n\n【时长】2:05\n\n【平台】YouTube\n\n【视频简介】\nD\n\n【字幕/文字稿】\nS"
    );
}

#[test]
fn analysis_text_minimal() {
    let v = VideoText {
        title: "T".to_string(),
        description: String::new(),
        subtitle: Some("   ".to_string()),
        duration: None,
        uploader: None,
        platform: "P".to_string(),
    };
    assert_eq!(v.to_analysis_text(), "【视频标题】T\n\n【平台】P");
}

#[test]
fn metadata_defaults_and_assembly() {
    let m = MetaInfo::from_fields(None, None, Some(61), None);
    assert_eq!(m.title, "（未知标题）");
    assert_eq!(m.description, "");
    let v = VideoText::assemble(m, None, "https://youtube.com/watch?v=1");
    assert_eq!(v.platform, "YouTube");
    assert_eq!(v.duration, Some(61));
    assert!(matches!(check_metadata_output(""), Err(Error::Crawler(ref m)) if m == "yt-dlp returned empty metadata"));
    assert!(check_metadata_output("{}").is_ok());
}

#[test]
fn fetcher_needs_ytdlp() {
    match SubtitleFetcher::new(None, None) {
        Err(Error::Crawler(m)) => assert_eq!(m, "yt-dlp not found. Install with: pip install yt-dlp"),
        other => panic!("{:?}", other),
    }
}

#[test]
fn fetcher_arguments() {
    let f = SubtitleFetcher::new(Some("/usr/bin/yt-dlp".to_string()), None).unwrap();
    assert_eq!(f.ytdlp_path(), "/usr/bin/yt-dlp");
    assert_eq!(f.timeout_secs(), 60);
    assert_eq!(
        f.metadata_args("U"),
        vec!["--no-update", "--dump-json", "--no-playlist", "--no-download", "--quiet", "--no-warnings", "U"]
    );
    let f = f.with_cookies("c.txt".to_string());
    let args = f.subtitle_args("U", "/tmp/x/sub.%(ext)s");
    assert_eq!(&args[..3], &["--no-update", "--cookies", "c.txt"]);
    assert_eq!(args[3], "--write-subs");
    assert_eq!(args[args.len() - 3], "-o");
    assert_eq!(args[args.len() - 2], "/tmp/x/sub.%(ext)s");
    assert_eq!(args[args.len() - 1], "U");
    assert_eq!(subtitle_template("/tmp/x"), "/tmp/x/sub.%(ext)s");
}

#[test]
fn ytdlp_lookup_order() {
    assert_eq!(find_ytdlp(Some("/p/yt-dlp".to_string()), &vec![true, true, true]).unwrap(), "/p/yt-dlp");
    assert_eq!(find_ytdlp(None, &vec![false, true, true]).unwrap(), "/usr/local/bin/yt-dlp");
    assert_eq!(find_ytdlp(None, &vec![false, false, true]).unwrap(), "/usr/bin/yt-dlp");
    assert!(find_ytdlp(None, &vec![false, false, false]).is_err());
}

#[test]
fn cookie_candidates_expand_home() {
    assert_eq!(cookie_files(Some("/home/u"))[2], "/home/u/.config/yt-dlp/cookies.txt");
    assert_eq!(cookie_files(None)[2], "~/.config/yt-dlp/cookies.txt");
    assert_eq!(cookie_files(None)[0], "./cookies.txt");
}

#[test]
fn run_results() {
    assert_eq!(run_result("out".to_string(), false, Some(1), "err").unwrap(), "out");
    assert_eq!(run_result(" ".to_string(), true, Some(0), "").unwrap(), " ");
    match run_result("  ".to_string(), false, Some(2), "first\nlast line\n") {
        Err(Error::Crawler(m)) => assert_eq!(m, "yt-dlp exit 2: last line"),
        other => panic!("{:?}", other),
    }
    match run_result(String::new(), false, None, "") {
        Err(Error::Crawler(m)) => assert_eq!(m, "yt-dlp exit -1: unknown error"),
        other => panic!("{:?}", other),
    }
}

#[test]
fn subtitle_files_by_extension() {
    assert_eq!(subtitle_kind("vtt"), Some(SubtitleKind::Vtt));
    assert_eq!(subtitle_kind("srt"), Some(SubtitleKind::Srt));
    assert_eq!(subtitle_kind("json"), None);
    assert_eq!(parse_subtitle(SubtitleKind::Srt, "1\n00:00 --> 00:01\nx\n"), "x");
}

#[test]
fn crawlers() {
    let c = CommentsCrawler::new("u".to_string(), 10);
    assert_eq!(c.max_count, 10);
    assert!(c.crawl().unwrap().is_empty());
    let d = DanmakuCrawler::new("u".to_string(), 5);
    assert_eq!(d.video_url, "u");
}

#[test]
fn metadata_from_ytdlp_json() {
    let m = parse_metadata(r#"{"title":"T","description":"D","duration":125.7,"uploader":"U","id":"x"}"#).unwrap();
    assert_eq!(m.title, "T");
    assert_eq!(m.description, "D");
    assert_eq!(m.duration, Some(125));
    assert_eq!(m.uploader.as_deref(), Some("U"));
    let bare = parse_metadata(r#"{"duration":"long"}"#).unwrap();
    assert_eq!(bare.title, "（未知标题）");
    assert_eq!(bare.description, "");
    assert_eq!(bare.duration, None);
    assert_eq!(bare.uploader, None);
    match parse_metadata("") {
        Err(Error::Crawler(m)) => assert_eq!(m, "yt-dlp returned empty metadata"),
        other => panic!("{:?}", other),
    }
    match parse_metadata("not json") {
        Err(Error::Crawler(m)) => assert!(m.starts_with("invalid metadata JSON: ")),
        other => panic!("{:?}", other),
    }
}
