//! Subtitle text extraction (WebVTT and SRT) and the yt-dlp invocation that fetches them.
//!
//! Subtitle sources, in order of preference: embedded subtitles, auto-generated subtitles,
//! and, when neither exists, the video's metadata (title and description).
use vstd::prelude::*;

use vstd::string::*;

use crate::api::vm_store::string_views;
use crate::cli::system::ytdlp_candidates;
use crate::error::Error;
use crate::vmm::boot::{join_path, spec_join_path};
use crate::text::{dec_digits, push_str_chars, to_dec_string};
use crate::text::{
    append_chars, chars_contain, chars_eq, chars_start_with, chars_to_string, contains, dedup,
    dedup_vec, is_whitespace, join, join_vec, split_lines, spec_lines, starts_with, str_to_chars,
    trim, trim_chars, views,
};

verus! {

/// `s` with every `<...>` tag removed, `in_tag` telling whether `s` starts inside a tag:
/// `<` opens a tag, `>` closes one, and only characters outside tags are kept.
pub open spec fn untag(s: Seq<char>, in_tag: bool) -> Seq<char>
    decreases s.len(),
{
    if s.len() == 0 {
        Seq::empty()
    } else if s[0] == '<' {
        untag(s.drop_first(), true)
    } else if s[0] == '>' {
        untag(s.drop_first(), false)
    } else if !in_tag {
        seq![s[0]] + untag(s.drop_first(), in_tag)
    } else {
        untag(s.drop_first(), in_tag)
    }
}

/// `s` without HTML tags, trimmed.
pub open spec fn spec_strip_html_tags(s: Seq<char>) -> Seq<char> {
    trim(untag(s, false))
}

/// Removes `<...>` tags from `s` and trims the result.
pub fn strip_html_tags(s: &str) -> (r: String)
    ensures
        r@ == spec_strip_html_tags(s@),
{
    let v = str_to_chars(s);
    let r = strip_tags_chars(&v);
    chars_to_string(&r)
}

fn strip_tags_chars(s: &Vec<char>) -> (r: Vec<char>)
    ensures
        r@ == spec_strip_html_tags(s@),
{
    let mut out: Vec<char> = Vec::new();
    let mut in_tag = false;
    let mut i: usize = 0;
    assert(s@.skip(0) =~= s@);
    while i < s.len()
        invariant
            i <= s@.len(),
            out@ + untag(s@.skip(i as int), in_tag) == untag(s@, false),
        decreases s@.len() - i,
    {
        let c = s[i];
        let ghost rest = s@.skip(i as int);
        assert(rest.drop_first() =~= s@.skip(i + 1));
        assert(rest[0] == c);
        let ghost before = out@;
        if c == '<' {
            in_tag = true;
        } else if c == '>' {
            in_tag = false;
        } else if !in_tag {
            out.push(c);
            assert(before + (seq![c] + untag(rest.drop_first(), in_tag)) =~= out@ + untag(rest.drop_first(), in_tag));
        }
        i = i + 1;
    }
    assert(untag(s@.skip(i as int), in_tag) =~= Seq::<char>::empty());
    assert(out@ + Seq::<char>::empty() =~= out@);
    trim_chars(&out)
}

/// Whether every character of `s` is an ASCII digit.
pub open spec fn all_ascii_digits(s: Seq<char>) -> bool {
    forall|i: int| 0 <= i < s.len() ==> '0' <= #[trigger] s[i] <= '9'
}

fn chars_all_ascii_digits(s: &Vec<char>) -> (b: bool)
    ensures
        b == all_ascii_digits(s@),
{
    let mut i: usize = 0;
    while i < s.len()
        invariant
            i <= s@.len(),
            forall|j: int| 0 <= j < i ==> '0' <= #[trigger] s@[j] <= '9',
        decreases s@.len() - i,
    {
        if !('0' <= s[i] && s[i] <= '9') {
            return false;
        }
        i = i + 1;
    }
    true
}

/// One WebVTT line read with `in_cue` telling whether a cue's text is being read:
/// the new state, and the text kept from the line (if any).
///
/// Header lines (`WEBVTT`, `NOTE...`, `STYLE...`) and blank lines end a cue, a timing line
/// (containing `-->`) starts one, and inside a cue a line's tag-free text is kept when it
/// is not empty.
pub open spec fn vtt_step(in_cue: bool, line: Seq<char>) -> (bool, Option<Seq<char>>) {
    let l = trim(line);
    if l == "WEBVTT"@ || starts_with(l, "NOTE"@) || starts_with(l, "STYLE"@) {
        (false, None)
    } else if contains(l, "-->"@) {
        (true, None)
    } else if l.len() == 0 {
        (false, None)
    } else if in_cue {
        let t = spec_strip_html_tags(l);
        (in_cue, if t.len() > 0 { Some(t) } else { None })
    } else {
        (in_cue, None)
    }
}

/// The state after reading `lines` from the start of a file, and the texts kept.
pub open spec fn vtt_run(lines: Seq<Seq<char>>) -> (bool, Seq<Seq<char>>)
    decreases lines.len(),
{
    if lines.len() == 0 {
        (false, Seq::empty())
    } else {
        let prev = vtt_run(lines.drop_last());
        let step = vtt_step(prev.0, lines.last());
        (step.0, match step.1 { Some(t) => prev.1.push(t), None => prev.1 })
    }
}

/// The text of a WebVTT file: the cue texts without tags, consecutive repeats dropped,
/// joined with single spaces.
pub open spec fn spec_parse_vtt(raw: Seq<char>) -> Seq<char> {
    join(dedup(vtt_run(spec_lines(raw)).1), " "@)
}

/// Where an SRT reader stands inside a subtitle block.
#[derive(Debug, Clone, Copy, PartialEq, Eq, Structural)]
pub enum SrtState {
    /// At the start of a block (start of the file, or after a blank line): a number line
    /// here is the subtitle's index.
    BlockStart,
    /// After the index: a line with `-->` here is the subtitle's timing.
    Timing,
    /// Inside the subtitle's text.
    Text,
}

/// One SRT line read in state `st`: the new state, and the text kept from the line (if any).
///
/// A blank line ends the block. At the start of a block a number line is the index, and
/// the timing line (containing `-->`) after it is dropped. Every other line is text: its
/// tag-free text is kept when it is not empty, digits and all.
pub open spec fn srt_step(st: SrtState, line: Seq<char>) -> (SrtState, Option<Seq<char>>) {
    let l = trim(line);
    if l.len() == 0 {
        (SrtState::BlockStart, None)
    } else if st == SrtState::BlockStart && all_ascii_digits(l) {
        (SrtState::Timing, None)
    } else if st == SrtState::Timing && contains(l, "-->"@) {
        (SrtState::Text, None)
    } else {
        let t = spec_strip_html_tags(l);
        (SrtState::Text, if t.len() > 0 { Some(t) } else { None })
    }
}

/// The state after reading `lines` from the start of a file, and the texts kept.
pub open spec fn srt_run(lines: Seq<Seq<char>>) -> (SrtState, Seq<Seq<char>>)
    decreases lines.len(),
{
    if lines.len() == 0 {
        (SrtState::BlockStart, Seq::empty())
    } else {
        let prev = srt_run(lines.drop_last());
        let step = srt_step(prev.0, lines.last());
        (step.0, match step.1 { Some(t) => prev.1.push(t), None => prev.1 })
    }
}

/// The text of an SRT file: subtitle texts without tags, consecutive repeats dropped,
/// joined with single spaces.
pub open spec fn spec_parse_srt(raw: Seq<char>) -> Seq<char> {
    join(dedup(srt_run(spec_lines(raw)).1), " "@)
}

fn lit(s: &str) -> (v: Vec<char>)
    ensures
        v@ == s@,
{
    str_to_chars(s)
}

fn vtt_step_exec(in_cue: bool, line: &Vec<char>) -> (r: (bool, Option<Vec<char>>))
    ensures
        r.0 == vtt_step(in_cue, line@).0,
        match vtt_step(in_cue, line@).1 {
            Some(t) => r.1 matches Some(v) && v@ == t,
            None => r.1 is None,
        },
{
    let l = trim_chars(line);
    if chars_eq(&l, &lit("WEBVTT")) || chars_start_with(&l, &lit("NOTE")) || chars_start_with(&l, &lit("STYLE")) {
        return (false, None);
    }
    if chars_contain(&l, &lit("-->")) {
        return (true, None);
    }
    if l.len() == 0 {
        return (false, None);
    }
    if in_cue {
        let t = strip_tags_chars(&l);
        if t.len() > 0 {
            return (in_cue, Some(t));
        }
        return (in_cue, None);
    }
    (in_cue, None)
}

fn srt_step_exec(st: SrtState, line: &Vec<char>) -> (r: (SrtState, Option<Vec<char>>))
    ensures
        r.0 == srt_step(st, line@).0,
        match srt_step(st, line@).1 {
            Some(t) => r.1 matches Some(v) && v@ == t,
            None => r.1 is None,
        },
{
    let l = trim_chars(line);
    if l.len() == 0 {
        return (SrtState::BlockStart, None);
    }
    if st == SrtState::BlockStart && chars_all_ascii_digits(&l) {
        return (SrtState::Timing, None);
    }
    if st == SrtState::Timing && chars_contain(&l, &lit("-->")) {
        return (SrtState::Text, None);
    }
    let t = strip_tags_chars(&l);
    if t.len() > 0 {
        (SrtState::Text, Some(t))
    } else {
        (SrtState::Text, None)
    }
}

/// The subtitle lines with consecutive repeats dropped, joined with single spaces.
pub open spec fn spec_dedup_lines(lines: Seq<Seq<char>>) -> Seq<char> {
    join(dedup(lines), " "@)
}

/// Drops consecutive repeated lines (frequent in auto-generated subtitles) and joins the
/// rest with single spaces.
pub fn dedup_lines(lines: &Vec<Vec<char>>) -> (r: Vec<char>)
    ensures
        r@ == spec_dedup_lines(views(lines@)),
{
    let d = dedup_vec(lines);
    join_vec(&d, &space())
}

fn space() -> (v: Vec<char>)
    ensures
        v@ == " "@,
{
    lit(" ")
}

/// Extracts the plain text of a WebVTT subtitle file (see `spec_parse_vtt`).
pub fn parse_vtt(raw: &str) -> (r: String)
    ensures
        r@ == spec_parse_vtt(raw@),
{
    let chars = str_to_chars(raw);
    let lines = split_lines(&chars);
    let mut texts: Vec<Vec<char>> = Vec::new();
    let mut in_cue = false;
    let mut i: usize = 0;
    while i < lines.len()
        invariant
            i <= lines@.len(),
            views(lines@) == spec_lines(raw@),
            (in_cue, views(texts@)) == vtt_run(views(lines@).take(i as int)),
        decreases lines@.len() - i,
    {
        let ghost before = texts@;
        proof {
            assert(views(lines@).take(i + 1).drop_last() =~= views(lines@).take(i as int));
            assert(views(lines@).take(i + 1).last() == lines@[i as int]@);
        }
        let (st, t) = vtt_step_exec(in_cue, &lines[i]);
        in_cue = st;
        match t {
            Some(x) => {
                texts.push(x);
                proof {
                    assert(views(texts@) =~= views(before).push(texts@.last()@));
                }
            },
            None => {},
        }
        i = i + 1;
    }
    proof {
        assert(views(lines@).take(lines@.len() as int) =~= views(lines@));
    }
    let j = dedup_lines(&texts);
    chars_to_string(&j)
}

/// Extracts the plain text of an SRT subtitle file (see `spec_parse_srt`).
pub fn parse_srt(raw: &str) -> (r: String)
    ensures
        r@ == spec_parse_srt(raw@),
{
    let chars = str_to_chars(raw);
    let lines = split_lines(&chars);
    let mut texts: Vec<Vec<char>> = Vec::new();
    let mut st = SrtState::BlockStart;
    let mut i: usize = 0;
    while i < lines.len()
        invariant
            i <= lines@.len(),
            views(lines@) == spec_lines(raw@),
            (st, views(texts@)) == srt_run(views(lines@).take(i as int)),
        decreases lines@.len() - i,
    {
        let ghost before = texts@;
        proof {
            assert(views(lines@).take(i + 1).drop_last() =~= views(lines@).take(i as int));
            assert(views(lines@).take(i + 1).last() == lines@[i as int]@);
        }
        let (next, t) = srt_step_exec(st, &lines[i]);
        st = next;
        match t {
            Some(x) => {
                texts.push(x);
                proof {
                    assert(views(texts@) =~= views(before).push(texts@.last()@));
                }
            },
            None => {},
        }
        i = i + 1;
    }
    proof {
        assert(views(lines@).take(lines@.len() as int) =~= views(lines@));
    }
    let j = dedup_lines(&texts);
    chars_to_string(&j)
}

/// The platform named for a video URL.
pub open spec fn spec_detect_platform(url: Seq<char>) -> Seq<char> {
    if contains(url, "bilibili.com"@) || contains(url, "b23.tv"@) {
        "哔哩哔哩 (Bilibili)"@
    } else if contains(url, "youtube.com"@) || contains(url, "youtu.be"@) {
        "YouTube"@
    } else if contains(url, "weibo.com"@) {
        "微博"@
    } else if contains(url, "douyin.com"@) || contains(url, "tiktok.com"@) {
        "抖音/TikTok"@
    } else {
        "未知平台"@
    }
}

/// Names the platform of a video URL from the host names it contains.
pub fn detect_platform(url: &str) -> (p: String)
    ensures
        p@ == spec_detect_platform(url@),
{
    let u = str_to_chars(url);
    if chars_contain(&u, &lit("bilibili.com")) || chars_contain(&u, &lit("b23.tv")) {
        String::from_str("哔哩哔哩 (Bilibili)")
    } else if chars_contain(&u, &lit("youtube.com")) || chars_contain(&u, &lit("youtu.be")) {
        String::from_str("YouTube")
    } else if chars_contain(&u, &lit("weibo.com")) {
        String::from_str("微博")
    } else if chars_contain(&u, &lit("douyin.com")) || chars_contain(&u, &lit("tiktok.com")) {
        String::from_str("抖音/TikTok")
    } else {
        String::from_str("未知平台")
    }
}

/// The text extracted from a video.
#[derive(Debug, Clone)]
pub struct VideoText {
    /// Title.
    pub title: String,
    /// Description.
    pub description: String,
    /// Subtitle text (plain, without timestamps).
    pub subtitle: Option<String>,
    /// Duration in whole seconds.
    pub duration: Option<u64>,
    /// Uploader.
    pub uploader: Option<String>,
    /// Platform.
    pub platform: String,
}

/// `n` (below 100) with at least two digits, as `{:02}` writes it.
pub open spec fn two_digits(n: nat) -> Seq<char> {
    if n < 10 {
        seq!['0'] + dec_digits(n)
    } else {
        dec_digits(n)
    }
}

/// The parts of the analysis text, in order.
pub open spec fn analysis_parts(v: VideoText) -> Seq<Seq<char>> {
    let p1 = seq!["【视频标题】"@ + v.title@];
    let p2 = match v.uploader {
        Some(up) => p1.push("【UP主/作者】"@ + up@),
        None => p1,
    };
    let p3 = match v.duration {
        Some(d) => p2.push("【时长】"@ + dec_digits((d / 60) as nat) + ":"@ + two_digits((d % 60) as nat)),
        None => p2,
    };
    let p4 = p3.push("【平台】"@ + v.platform@);
    let p5 = if v.description@.len() > 0 {
        p4.push("【视频简介】\n"@ + v.description@)
    } else {
        p4
    };
    match v.subtitle {
        Some(sub) => if trim(sub@).len() > 0 {
            p5.push("【字幕/文字稿】\n"@ + sub@)
        } else {
            p5
        },
        None => p5,
    }
}

/// The text handed to the model for analysis: the parts joined with blank lines.
pub open spec fn spec_analysis_text(v: VideoText) -> Seq<char> {
    join(analysis_parts(v), "\n\n"@)
}

fn part(label: &str, value: &str) -> (v: Vec<char>)
    ensures
        v@ == label@ + value@,
{
    let mut v = str_to_chars(label);
    push_str_chars(&mut v, value);
    v
}

impl VideoText {
    /// The text handed to the model for analysis (see `analysis_parts`): title, uploader,
    /// duration as `m:ss`, platform, description and subtitle, each when present.
    pub fn to_analysis_text(&self) -> (s: String)
        ensures
            s@ == spec_analysis_text(*self),
    {
        let mut parts: Vec<Vec<char>> = Vec::new();
        parts.push(part("【视频标题】", self.title.as_str()));
        proof {
            assert(views(parts@) =~= seq!["【视频标题】"@ + self.title@]);
        }
        let ghost p1 = views(parts@);
        match &self.uploader {
            Some(up) => {
                parts.push(part("【UP主/作者】", up.as_str()));
                assert(views(parts@) =~= p1.push("【UP主/作者】"@ + up@));
            },
            None => {},
        }
        let ghost p2 = views(parts@);
        match self.duration {
            Some(d) => {
                let m = to_dec_string(d / 60);
                let sec = d % 60;
                let mut v = str_to_chars("【时长】");
                push_str_chars(&mut v, m.as_str());
                push_str_chars(&mut v, ":");
                if sec < 10 {
                    push_str_chars(&mut v, "0");
                    proof { reveal_strlit("0"); }
                }
                let ss = to_dec_string(sec);
                push_str_chars(&mut v, ss.as_str());
                proof {
                    if sec < 10 {
                        assert("0"@ =~= seq!['0']);
                    }
                    assert(v@ =~= "【时长】"@ + dec_digits((d / 60) as nat) + ":"@ + two_digits((d % 60) as nat));
                }
                parts.push(v);
                assert(views(parts@) =~= p2.push("【时长】"@ + dec_digits((d / 60) as nat) + ":"@ + two_digits((d % 60) as nat)));
            },
            None => {},
        }
        let ghost p3 = views(parts@);
        parts.push(part("【平台】", self.platform.as_str()));
        assert(views(parts@) =~= p3.push("【平台】"@ + self.platform@));
        let ghost p4 = views(parts@);
        if self.description.unicode_len() > 0 {
            parts.push(part("【视频简介】\n", self.description.as_str()));
            assert(views(parts@) =~= p4.push("【视频简介】\n"@ + self.description@));
        }
        let ghost p5 = views(parts@);
        match &self.subtitle {
            Some(sub) => {
                let t = trim_chars(&str_to_chars(sub.as_str()));
                if t.len() > 0 {
                    parts.push(part("【字幕/文字稿】\n", sub.as_str()));
                    assert(views(parts@) =~= p5.push("【字幕/文字稿】\n"@ + sub@));
                }
            },
            None => {},
        }
        proof {
            assert(views(parts@) == analysis_parts(*self));
        }
        let j = join_vec(&parts, &str_to_chars("\n\n"));
        chars_to_string(&j)
    }
}

/// What yt-dlp reports about a video, as decoded by the caller.
#[derive(Debug, Clone)]
pub struct MetaInfo {
    /// Title.
    pub title: String,
    /// Description.
    pub description: String,
    /// Duration in whole seconds.
    pub duration: Option<u64>,
    /// Uploader.
    pub uploader: Option<String>,
}

/// Title used when the metadata has none.
pub const UNKNOWN_TITLE: &'static str = "（未知标题）";

impl MetaInfo {
    /// The metadata from the decoded fields: a missing title becomes `UNKNOWN_TITLE`, a
    /// missing description the empty text.
    pub fn from_fields(
        title: Option<String>,
        description: Option<String>,
        duration: Option<u64>,
        uploader: Option<String>,
    ) -> (m: Self)
        ensures
            m.title@ == match title { Some(t) => t@, None => UNKNOWN_TITLE@ },
            m.description@ == match description { Some(d) => d@, None => Seq::<char>::empty() },
            m.duration == duration,
            m.uploader == uploader,
    {
        MetaInfo {
            title: match title {
                Some(t) => t,
                None => String::from_str(UNKNOWN_TITLE),
            },
            description: match description {
                Some(d) => d,
                None => String::new(),
            },
            duration,
            uploader,
        }
    }
}

/// The plain text of an optional string.
pub open spec fn opt_text(o: Option<String>) -> Option<Seq<char>> {
    match o {
        Some(t) => Some(t@),
        None => None,
    }
}

/// The fields read from yt-dlp's metadata: title, description, duration in whole
/// seconds, uploader.
pub type MetaFields = (Option<String>, Option<String>, Option<u64>, Option<String>);

/// The plain contents of a metadata decoding result.
pub open spec fn metadata_view(r: Result<MetaFields, String>) -> Result<(Option<Seq<char>>, Option<Seq<char>>, Option<u64>, Option<Seq<char>>), Seq<char>> {
    match r {
        Ok(f) => Ok((opt_text(f.0), opt_text(f.1), f.2, opt_text(f.3))),
        Err(e) => Err(e@),
    }
}

/// What `serde_json` makes of yt-dlp's metadata output: its `title`, `description` and
/// `uploader` when they are strings and its `duration` when it is a number (truncated to
/// whole seconds), or the decoder's message when the output is not JSON.
pub uninterp spec fn json_metadata(output: Seq<char>) -> Result<(Option<Seq<char>>, Option<Seq<char>>, Option<u64>, Option<Seq<char>>), Seq<char>>;

/// `serde_json::from_str` on yt-dlp's metadata output, then its four fields. The contract
/// names the result; the JSON grammar is not restated here.
#[verifier::external_body]
fn decode_metadata(output: &str) -> (r: Result<MetaFields, String>)
    ensures
        metadata_view(r) == json_metadata(output@),
{
    serde_json::from_str::<serde_json::Value>(output).map_err(|e| e.to_string()).map(|json| (
        json["title"].as_str().map(|s| s.to_string()),
        json["description"].as_str().map(|s| s.to_string()),
        json["duration"].as_f64().map(|d| d as u64),
        json["uploader"].as_str().map(|s| s.to_string()),
    ))
}

/// Whether `m` is the metadata made from the decoded fields `f` (see `from_fields`).
pub open spec fn spec_meta_from(m: MetaInfo, f: (Option<Seq<char>>, Option<Seq<char>>, Option<u64>, Option<Seq<char>>)) -> bool {
    &&& m.title@ == match f.0 { Some(t) => t, None => UNKNOWN_TITLE@ }
    &&& m.description@ == match f.1 { Some(d) => d, None => Seq::<char>::empty() }
    &&& m.duration == f.2
    &&& opt_text(m.uploader) == f.3
}

/// Reads yt-dlp's metadata output: empty output is refused, output that is not JSON is
/// refused with the decoder's message, and otherwise the metadata is made from its
/// fields (see `MetaInfo::from_fields`).
pub fn parse_metadata(output: &str) -> (r: Result<MetaInfo, Error>)
    ensures
        output@.len() == 0 ==> (r matches Err(Error::Crawler(m)) && m@ == "yt-dlp returned empty metadata"@),
        output@.len() > 0 ==> match json_metadata(output@) {
            Ok(f) => r matches Ok(m) && spec_meta_from(m, f),
            Err(e) => r matches Err(Error::Crawler(m)) && m@ == "invalid metadata JSON: "@ + e,
        },
{
    match check_metadata_output(output) {
        Ok(()) => {},
        Err(e) => return Err(e),
    }
    match decode_metadata(output) {
        Ok(f) => Ok(MetaInfo::from_fields(f.0, f.1, f.2, f.3)),
        Err(e) => {
            let mut m = String::from_str("invalid metadata JSON: ");
            m.append(e.as_str());
            Err(Error::Crawler(m))
        },
    }
}

/// Checks yt-dlp's metadata output before decoding: it must not be empty.
pub fn check_metadata_output(output: &str) -> (r: Result<(), Error>)
    ensures
        output@.len() == 0 <==> (r matches Err(Error::Crawler(m)) && m@ == "yt-dlp returned empty metadata"@),
        output@.len() > 0 <==> r is Ok,
{
    if output.unicode_len() == 0 {
        Err(Error::Crawler(String::from_str("yt-dlp returned empty metadata")))
    } else {
        Ok(())
    }
}

impl VideoText {
    /// The text of a video from its metadata, its subtitle and its URL, whose platform is
    /// named by `detect_platform`.
    pub fn assemble(meta: MetaInfo, subtitle: Option<String>, url: &str) -> (v: Self)
        ensures
            v.title@ == meta.title@,
            v.description@ == meta.description@,
            v.subtitle == subtitle,
            v.duration == meta.duration,
            v.uploader == meta.uploader,
            v.platform@ == spec_detect_platform(url@),
    {
        VideoText {
            title: meta.title,
            description: meta.description,
            subtitle,
            duration: meta.duration,
            uploader: meta.uploader,
            platform: detect_platform(url),
        }
    }
}

/// yt-dlp's subtitle formats.
#[derive(Debug, Clone, Copy, PartialEq, Eq, Structural)]
pub enum SubtitleKind {
    /// WebVTT (`.vtt`).
    Vtt,
    /// SubRip (`.srt`).
    Srt,
}

/// The subtitle format of a file extension, if it is one.
pub fn subtitle_kind(ext: &str) -> (k: Option<SubtitleKind>)
    ensures
        ext@ == "vtt"@ ==> k == Some(SubtitleKind::Vtt),
        ext@ == "srt"@ ==> k == Some(SubtitleKind::Srt),
        ext@ != "vtt"@ && ext@ != "srt"@ ==> k is None,
{
    proof {
        reveal_strlit("vtt");
        reveal_strlit("srt");
        assert("vtt"@[0] != "srt"@[0]);
        assert("vtt"@ != "srt"@);
    }
    let e = String::from_str(ext);
    if e == String::from_str("vtt") {
        Some(SubtitleKind::Vtt)
    } else if e == String::from_str("srt") {
        Some(SubtitleKind::Srt)
    } else {
        None
    }
}

/// The plain text of a subtitle file of the given format.
pub fn parse_subtitle(kind: SubtitleKind, raw: &str) -> (r: String)
    ensures
        kind == SubtitleKind::Vtt ==> r@ == spec_parse_vtt(raw@),
        kind == SubtitleKind::Srt ==> r@ == spec_parse_srt(raw@),
{
    match kind {
        SubtitleKind::Vtt => parse_vtt(raw),
        SubtitleKind::Srt => parse_srt(raw),
    }
}

/// A number in decimal with a leading `-` when negative.
pub open spec fn int_digits(i: int) -> Seq<char> {
    if i < 0 {
        seq!['-'] + dec_digits((-i) as nat)
    } else {
        dec_digits(i as nat)
    }
}

fn i32_string(i: i32) -> (s: String)
    ensures
        s@ == int_digits(i as int),
{
    if i < 0 {
        let mut s = String::from_str("-");
        let d = to_dec_string((-(i as i64)) as u64);
        s.append(d.as_str());
        proof {
            reveal_strlit("-");
            assert("-"@ =~= seq!['-']);
        }
        s
    } else {
        to_dec_string(i as u64)
    }
}

/// The last line of `s`, if it has one.
pub open spec fn last_line(s: Seq<char>) -> Option<Seq<char>> {
    if spec_lines(s).len() > 0 {
        Some(spec_lines(s).last())
    } else {
        None
    }
}

/// The result of a finished yt-dlp run: its output when there is any; else, for a failed
/// run, an error with the exit code (-1 when killed) and the last line of its error output.
pub open spec fn spec_run_result(stdout: Seq<char>, success: bool, code: Option<i32>, stderr: Seq<char>) -> Result<Seq<char>, Seq<char>> {
    if trim(stdout).len() > 0 || success {
        Ok(stdout)
    } else {
        Err("yt-dlp exit "@ + int_digits(match code { Some(c) => c as int, None => -1 }) + ": "@
            + match last_line(stderr) {
                Some(l) => l,
                None => "unknown error"@,
            })
    }
}

/// Judges a finished yt-dlp run (see `spec_run_result`); the output is returned even from
/// a failed run, since metadata may still be printed.
pub fn run_result(stdout: String, success: bool, code: Option<i32>, stderr: &str) -> (r: Result<String, Error>)
    ensures
        match spec_run_result(stdout@, success, code, stderr@) {
            Ok(o) => r matches Ok(s) && s@ == o,
            Err(m) => r matches Err(Error::Crawler(e)) && e@ == m,
        },
{
    let out = str_to_chars(stdout.as_str());
    let t = trim_chars(&out);
    if t.len() > 0 || success {
        return Ok(stdout);
    }
    let mut m = String::from_str("yt-dlp exit ");
    let c = match code {
        Some(c) => c,
        None => -1,
    };
    let cs = i32_string(c);
    m.append(cs.as_str());
    m.append(": ");
    let lines = split_lines(&str_to_chars(stderr));
    if lines.len() > 0 {
        let last = chars_to_string(&lines[lines.len() - 1]);
        m.append(last.as_str());
    } else {
        m.append("unknown error");
    }
    Err(Error::Crawler(m))
}

/// Fetches video text with yt-dlp: the executable, an optional cookie file and a timeout.
#[derive(Debug, Clone)]
pub struct SubtitleFetcher {
    ytdlp_path: String,
    cookies_file: Option<String>,
    timeout_secs: u64,
}

/// Seconds a yt-dlp run may take.
pub const FETCH_TIMEOUT_SECS: u64 = 60;

impl SubtitleFetcher {
    /// The yt-dlp executable.
    pub closed spec fn spec_ytdlp(&self) -> Seq<char> {
        self.ytdlp_path@
    }

    /// The cookie file passed to yt-dlp.
    pub closed spec fn spec_cookies(&self) -> Option<Seq<char>> {
        match self.cookies_file {
            Some(c) => Some(c@),
            None => None,
        }
    }

    /// Seconds a run may take.
    pub closed spec fn spec_timeout(&self) -> u64 {
        self.timeout_secs
    }

    /// A fetcher using the yt-dlp executable that was found and the cookie file that was
    /// found; without yt-dlp there is nothing to run.
    pub fn new(ytdlp: Option<String>, cookies: Option<String>) -> (r: Result<Self, Error>)
        ensures
            match ytdlp {
                Some(p) => r matches Ok(f) && f.spec_ytdlp() == p@
                    && f.spec_cookies() == (match cookies { Some(c) => Some(c@), None => None::<Seq<char>> })
                    && f.spec_timeout() == FETCH_TIMEOUT_SECS,
                None => r matches Err(Error::Crawler(m)) && m@ == "yt-dlp not found. Install with: pip install yt-dlp"@,
            },
    {
        match ytdlp {
            Some(p) => Ok(SubtitleFetcher { ytdlp_path: p, cookies_file: cookies, timeout_secs: FETCH_TIMEOUT_SECS }),
            None => Err(Error::Crawler(String::from_str("yt-dlp not found. Install with: pip install yt-dlp"))),
        }
    }

    /// The same fetcher with another cookie file.
    pub fn with_cookies(self, path: String) -> (f: Self)
        ensures
            f.spec_ytdlp() == self.spec_ytdlp(),
            f.spec_cookies() == Some(path@),
            f.spec_timeout() == self.spec_timeout(),
    {
        SubtitleFetcher { ytdlp_path: self.ytdlp_path, cookies_file: Some(path), timeout_secs: self.timeout_secs }
    }

    /// The yt-dlp executable.
    pub fn ytdlp_path(&self) -> (p: &str)
        ensures
            p@ == self.spec_ytdlp(),
    {
        self.ytdlp_path.as_str()
    }

    /// Seconds a run may take.
    pub fn timeout_secs(&self) -> (t: u64)
        ensures
            t == self.spec_timeout(),
    {
        self.timeout_secs
    }

    /// The arguments every run starts with: no self-update, and the cookie file if any.
    pub open spec fn spec_base_args(&self) -> Seq<Seq<char>> {
        match self.spec_cookies() {
            Some(c) => seq!["--no-update"@, "--cookies"@, c],
            None => seq!["--no-update"@],
        }
    }

    fn base_args(&self) -> (v: Vec<String>)
        ensures
            string_views(v@) == self.spec_base_args(),
    {
        let mut v: Vec<String> = Vec::new();
        v.push(String::from_str("--no-update"));
        match &self.cookies_file {
            Some(c) => {
                v.push(String::from_str("--cookies"));
                v.push(c.clone());
            },
            None => {},
        }
        assert(string_views(v@) =~= self.spec_base_args());
        v
    }

    /// The arguments of the metadata run.
    pub open spec fn spec_metadata_args(&self, url: Seq<char>) -> Seq<Seq<char>> {
        self.spec_base_args() + seq![
            "--dump-json"@,
            "--no-playlist"@,
            "--no-download"@,
            "--quiet"@,
            "--no-warnings"@,
            url,
        ]
    }

    /// The arguments of the metadata run: dump the video's JSON without downloading.
    pub fn metadata_args(&self, url: &str) -> (v: Vec<String>)
        ensures
            string_views(v@) == self.spec_metadata_args(url@),
    {
        let mut v = self.base_args();
        let ghost base = string_views(v@);
        v.push(String::from_str("--dump-json"));
        v.push(String::from_str("--no-playlist"));
        v.push(String::from_str("--no-download"));
        v.push(String::from_str("--quiet"));
        v.push(String::from_str("--no-warnings"));
        v.push(String::from_str(url));
        assert(string_views(v@) =~= self.spec_metadata_args(url@));
        v
    }

    /// The arguments of the subtitle run.
    pub open spec fn spec_subtitle_args(&self, url: Seq<char>, out_template: Seq<char>) -> Seq<Seq<char>> {
        self.spec_base_args() + seq![
            "--write-subs"@,
            "--write-auto-sub"@,
            "--sub-lang"@,
            "zh-Hans,zh,zh-CN,en"@,
            "--sub-format"@,
            "vtt/best"@,
            "--skip-download"@,
            "--no-playlist"@,
            "--quiet"@,
            "--no-warnings"@,
            "-o"@,
            out_template,
            url,
        ]
    }

    /// The arguments of the subtitle run: embedded and automatic subtitles in Chinese or
    /// English, as WebVTT when possible, written to `out_template`, without the video.
    pub fn subtitle_args(&self, url: &str, out_template: &str) -> (v: Vec<String>)
        ensures
            string_views(v@) == self.spec_subtitle_args(url@, out_template@),
    {
        let mut v = self.base_args();
        v.push(String::from_str("--write-subs"));
        v.push(String::from_str("--write-auto-sub"));
        v.push(String::from_str("--sub-lang"));
        v.push(String::from_str("zh-Hans,zh,zh-CN,en"));
        v.push(String::from_str("--sub-format"));
        v.push(String::from_str("vtt/best"));
        v.push(String::from_str("--skip-download"));
        v.push(String::from_str("--no-playlist"));
        v.push(String::from_str("--quiet"));
        v.push(String::from_str("--no-warnings"));
        v.push(String::from_str("-o"));
        v.push(String::from_str(out_template));
        v.push(String::from_str(url));
        assert(string_views(v@) =~= self.spec_subtitle_args(url@, out_template@));
        v
    }
}

/// Where the subtitle run writes: `sub.%(ext)s` in `out_dir`.
pub fn subtitle_template(out_dir: &str) -> (t: String)
    ensures
        t@ == spec_join_path(out_dir@, "sub.%(ext)s"@),
{
    join_path(out_dir, "sub.%(ext)s")
}

/// The yt-dlp executable to use: the one found on the path, else the first of
/// `ytdlp_candidates` that exists (`exists` says which do).
pub fn find_ytdlp(on_path: Option<String>, exists: &Vec<bool>) -> (r: Result<String, Error>)
    requires
        exists@.len() == 3,
    ensures
        match on_path {
            Some(p) => r matches Ok(q) && q@ == p@,
            None => if exists@[0] {
                r matches Ok(q) && q@ == "D:/software/python/3115/Scripts/yt-dlp.exe"@
            } else if exists@[1] {
                r matches Ok(q) && q@ == "/usr/local/bin/yt-dlp"@
            } else if exists@[2] {
                r matches Ok(q) && q@ == "/usr/bin/yt-dlp"@
            } else {
                r matches Err(Error::Crawler(m)) && m@ == "yt-dlp not found. Install with: pip install yt-dlp"@
            },
        },
{
    match on_path {
        Some(p) => Ok(p),
        None => {
            let c = ytdlp_candidates();
            if exists[0] {
                Ok(String::from_str(c[0]))
            } else if exists[1] {
                Ok(String::from_str(c[1]))
            } else if exists[2] {
                Ok(String::from_str(c[2]))
            } else {
                Err(Error::Crawler(String::from_str("yt-dlp not found. Install with: pip install yt-dlp")))
            }
        },
    }
}

/// The cookie files looked for, in order; `~/` is the home directory when it is known.
pub open spec fn spec_cookie_files(home: Option<Seq<char>>) -> Seq<Seq<char>> {
    seq![
        "./cookies.txt"@,
        "./bilibili_cookies.txt"@,
        match home {
            Some(h) => spec_join_path(h, ".config/yt-dlp/cookies.txt"@),
            None => "~/.config/yt-dlp/cookies.txt"@,
        },
    ]
}

/// The cookie files looked for, in order (see `spec_cookie_files`).
pub fn cookie_files(home: Option<&str>) -> (v: Vec<String>)
    ensures
        string_views(v@) == spec_cookie_files(match home {
            Some(h) => Some(h@),
            None => None::<Seq<char>>,
        }),
{
    let mut v: Vec<String> = Vec::new();
    v.push(String::from_str("./cookies.txt"));
    v.push(String::from_str("./bilibili_cookies.txt"));
    match home {
        Some(h) => v.push(join_path(h, ".config/yt-dlp/cookies.txt")),
        None => v.push(String::from_str("~/.config/yt-dlp/cookies.txt")),
    }
    assert(string_views(v@) =~= spec_cookie_files(match home {
        Some(h) => Some(h@),
        None => None::<Seq<char>>,
    }));
    v
}

proof fn lemma_untag_no_brackets(s: Seq<char>, in_tag: bool)
    ensures
        forall|i: int| 0 <= i < untag(s, in_tag).len() ==> #[trigger] untag(s, in_tag)[i] != '<'
            && untag(s, in_tag)[i] != '>',
    decreases s.len(),
{
    if s.len() > 0 {
        lemma_untag_no_brackets(s.drop_first(), true);
        lemma_untag_no_brackets(s.drop_first(), false);
        let r = untag(s, in_tag);
        if s[0] == '<' {
            assert(r == untag(s.drop_first(), true));
        } else if s[0] == '>' {
            assert(r == untag(s.drop_first(), false));
        } else if !in_tag {
            let t = untag(s.drop_first(), in_tag);
            assert(r == seq![s[0]] + t);
            assert forall|i: int| 0 <= i < r.len() implies #[trigger] r[i] != '<' && r[i] != '>' by {
                if i > 0 {
                    assert(r[i] == t[i - 1]);
                }
            }
        } else {
            assert(r == untag(s.drop_first(), in_tag));
        }
    }
}

/// Text with its tags stripped holds no `<` or `>`.
pub proof fn law_stripped_has_no_brackets(s: Seq<char>)
    ensures
        !spec_strip_html_tags(s).contains('<'),
        !spec_strip_html_tags(s).contains('>'),
{
    let u = untag(s, false);
    lemma_untag_no_brackets(s, false);
    crate::text::lemma_trim_sub(u);
    if spec_strip_html_tags(s).contains('<') {
        let i = choose|i: int| 0 <= i < trim(u).len() && trim(u)[i] == '<';
        assert(u.contains(trim(u)[i]));
        let k = choose|k: int| 0 <= k < u.len() && u[k] == trim(u)[i];
        assert(u[k] != '<');
    }
    if spec_strip_html_tags(s).contains('>') {
        let i = choose|i: int| 0 <= i < trim(u).len() && trim(u)[i] == '>';
        assert(u.contains(trim(u)[i]));
        let k = choose|k: int| 0 <= k < u.len() && u[k] == trim(u)[i];
        assert(u[k] != '>');
    }
}

/// Whether `line` is WebVTT cue text: not blank, not a header (`WEBVTT`, `NOTE...`,
/// `STYLE...`), not a timing line, and with some text outside tags.
pub open spec fn is_vtt_text_line(line: Seq<char>) -> bool {
    let l = trim(line);
    &&& l.len() > 0
    &&& l != "WEBVTT"@
    &&& !starts_with(l, "NOTE"@)
    &&& !starts_with(l, "STYLE"@)
    &&& !contains(l, "-->"@)
    &&& spec_strip_html_tags(l).len() > 0
}

/// Every text line of a WebVTT cue is kept: after a timing line (any line holding `-->`
/// that is not a header), two text lines in a row both come out, in order and without
/// tags, after what the lines before gave; the first text line does not end the cue.
pub proof fn law_vtt_cue_keeps_every_line(pre: Seq<Seq<char>>, timing: Seq<char>, a: Seq<char>, b: Seq<char>)
    requires
        contains(trim(timing), "-->"@),
        trim(timing) != "WEBVTT"@,
        !starts_with(trim(timing), "NOTE"@),
        !starts_with(trim(timing), "STYLE"@),
        is_vtt_text_line(a),
        is_vtt_text_line(b),
    ensures
        vtt_run(pre.push(timing).push(a).push(b)).1
            == vtt_run(pre).1.push(spec_strip_html_tags(trim(a))).push(spec_strip_html_tags(trim(b))),
        vtt_run(pre.push(timing).push(a).push(b)).0,
{
    let s1 = pre.push(timing);
    let s2 = s1.push(a);
    let s3 = s2.push(b);
    assert(s1.drop_last() =~= pre);
    assert(s2.drop_last() =~= s1);
    assert(s3.drop_last() =~= s2);
    assert(vtt_run(s1).0);
    assert(vtt_run(s1).1 == vtt_run(pre).1);
    assert(vtt_run(s2).0);
    assert(vtt_run(s2).1 == vtt_run(pre).1.push(spec_strip_html_tags(trim(a))));
}

/// Every text line of an SRT subtitle is kept, digits and all: after the index line at
/// the start of a block and the timing line, two text lines in a row (each with some text
/// outside tags) both come out, in order and without tags, after what the lines before
/// gave.
pub proof fn law_srt_block_keeps_every_line(
    pre: Seq<Seq<char>>,
    index: Seq<char>,
    timing: Seq<char>,
    a: Seq<char>,
    b: Seq<char>,
)
    requires
        srt_run(pre).0 == SrtState::BlockStart,
        trim(index).len() > 0,
        all_ascii_digits(trim(index)),
        contains(trim(timing), "-->"@),
        spec_strip_html_tags(trim(a)).len() > 0,
        spec_strip_html_tags(trim(b)).len() > 0,
        trim(a).len() > 0,
        trim(b).len() > 0,
    ensures
        srt_run(pre.push(index).push(timing).push(a).push(b)).1
            == srt_run(pre).1.push(spec_strip_html_tags(trim(a))).push(spec_strip_html_tags(trim(b))),
{
    let s1 = pre.push(index);
    let s2 = s1.push(timing);
    let s3 = s2.push(a);
    let s4 = s3.push(b);
    assert(s1.drop_last() =~= pre);
    assert(s2.drop_last() =~= s1);
    assert(s3.drop_last() =~= s2);
    assert(s4.drop_last() =~= s3);
    assert(trim(timing).len() > 0) by {
        reveal_strlit("-->");
        let i = choose|i: int| crate::text::occurs_at(trim(timing), "-->"@, i);
        assert(crate::text::occurs_at(trim(timing), "-->"@, i));
    }
    assert(srt_run(s1).0 == SrtState::Timing);
    assert(srt_run(s1).1 == srt_run(pre).1);
    assert(srt_run(s2).0 == SrtState::Text);
    assert(srt_run(s2).1 == srt_run(pre).1);
    assert(srt_run(s3).0 == SrtState::Text);
    assert(srt_run(s3).1 == srt_run(pre).1.push(spec_strip_html_tags(trim(a))));
}

impl SubtitleFetcher {
    /// The subtitle run asks yt-dlp for both the uploaded and the automatically generated
    /// subtitles, in Chinese or English, as WebVTT when possible, without the video, and
    /// ends with the output template and the URL; the shared arguments come first.
    pub proof fn law_subtitle_args_ask_for_all_subtitles(&self, url: Seq<char>, out_template: Seq<char>)
        ensures
            self.spec_subtitle_args(url, out_template).contains("--write-subs"@),
            self.spec_subtitle_args(url, out_template).contains("--write-auto-sub"@),
            self.spec_subtitle_args(url, out_template).contains("--skip-download"@),
            self.spec_subtitle_args(url, out_template) == self.spec_base_args() + seq![
                "--write-subs"@, "--write-auto-sub"@, "--sub-lang"@, "zh-Hans,zh,zh-CN,en"@,
                "--sub-format"@, "vtt/best"@, "--skip-download"@, "--no-playlist"@, "--quiet"@,
                "--no-warnings"@, "-o"@, out_template, url,
            ],
    {
        let a = self.spec_subtitle_args(url, out_template);
        let n = self.spec_base_args().len() as int;
        assert(a[n] == "--write-subs"@);
        assert(a[n + 1] == "--write-auto-sub"@);
        assert(a[n + 6] == "--skip-download"@);
    }

    /// Every run starts with `--no-update` and, when a cookie file is set, `--cookies`
    /// and its path; the metadata run then asks for the video's JSON without downloading
    /// it, and ends with the URL.
    pub proof fn law_metadata_and_base_args(&self, url: Seq<char>)
        ensures
            self.spec_base_args() == match self.spec_cookies() {
                Some(c) => seq!["--no-update"@, "--cookies"@, c],
                None => seq!["--no-update"@],
            },
            self.spec_metadata_args(url) == self.spec_base_args() + seq![
                "--dump-json"@, "--no-playlist"@, "--no-download"@, "--quiet"@, "--no-warnings"@, url,
            ],
    {
    }
}

} // verus!
