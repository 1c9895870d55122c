//! The `summarize` and `crawl` commands: options, the prompt, the output file name.
use vstd::prelude::*;
use vstd::string::*;

use crate::text::{chars_to_string, str_to_chars};

verus! {

/// How much to collect.
#[derive(Debug, Clone, Copy, PartialEq, Eq, Structural)]
pub enum CrawlLevel {
    /// About 100 items.
    Light,
    /// About 1,000 items.
    Standard,
    /// Everything.
    Full,
}

impl CrawlLevel {
    /// The level's name as typed and stored.
    pub open spec fn spec_as_str(self) -> Seq<char> {
        match self {
            CrawlLevel::Light => "light"@,
            CrawlLevel::Standard => "standard"@,
            CrawlLevel::Full => "full"@,
        }
    }

    /// The level's name as typed and stored.
    pub fn as_str(&self) -> (s: &'static str)
        ensures
            s@ == self.spec_as_str(),
    {
        match self {
            CrawlLevel::Light => "light",
            CrawlLevel::Standard => "standard",
            CrawlLevel::Full => "full",
        }
    }
}

/// What to collect.
#[derive(Debug, Clone, Copy, PartialEq, Eq, Structural)]
pub enum CrawlType {
    /// Comments only.
    Comments,
    /// Bullet comments only.
    Danmaku,
    /// Both.
    Both,
}

/// Options of `summarize`.
#[derive(Debug, Clone)]
pub struct SummarizeCmd {
    /// Video URL.
    pub url: String,
    /// Collection level (default `standard`).
    pub level: CrawlLevel,
    /// Output language (default `zh-CN`).
    pub language: String,
    /// Directory to save the summary in.
    pub output: Option<String>,
}

/// Options of `crawl`.
#[derive(Debug, Clone)]
pub struct CrawlCmd {
    /// Video URL.
    pub url: String,
    /// What to collect (default both).
    pub kind: CrawlType,
    /// Collection level (default `standard`).
    pub level: CrawlLevel,
    /// Output directory.
    pub output: Option<String>,
}

/// Exit code of `crawl`, which needs a running micro VM and is not available yet.
pub const CRAWL_EXIT_CODE: i32 = 1;

/// The depth of summary asked for at each level.
pub open spec fn spec_depth(level: CrawlLevel) -> Seq<char> {
    match level {
        CrawlLevel::Light => "简要总结（3-5 个要点）"@,
        CrawlLevel::Standard => "标准总结（时间线分段 + 关键要点 + 总体评价）"@,
        CrawlLevel::Full => "深度总结（完整时间线 + 详细分析 + 评论区情绪分析 + 总体评价）"@,
    }
}

/// The fetched text of the video in the prompt: its heading and the text, or nothing
/// when no text was fetched.
pub open spec fn spec_prompt_text(analysis: Option<Seq<char>>) -> Seq<char> {
    match analysis {
        Some(t) => PROMPT_TEXT@ + t,
        None => Seq::empty(),
    }
}

/// The user prompt asking for a structured summary of the video at `url`, carrying the
/// video's analysis text (title, metadata and subtitle) when it was fetched.
pub open spec fn spec_summarize_prompt(url: Seq<char>, level: CrawlLevel, analysis: Option<Seq<char>>) -> Seq<char> {
    PROMPT_A@ + spec_depth(level) + PROMPT_B@ + url + spec_prompt_text(analysis) + PROMPT_C@ + url + PROMPT_D@
}

/// The prompt's text before the depth.
pub const PROMPT_A: &'static str = "请分析以下视频并生成";
/// The prompt's text between the depth and the link.
pub const PROMPT_B: &'static str = "：\n\n视频链接：";
/// The heading of the video's fetched text, after the link.
pub const PROMPT_TEXT: &'static str = "\n\n以下是该视频的字幕与信息：\n";
/// The prompt's text between the link (or the video's text) and the sections, which
/// repeat the link.
pub const PROMPT_C: &'static str = "\n\n请按照以下结构输出：\n\n## 📌 视频基本信息\n- 标题：（如能获取）\n- 平台：（根据链接判断）\n- 链接：";
/// The prompt's sections after the repeated link.
pub const PROMPT_D: &'static str = "\n\n## 🎯 核心内容总结\n（用简洁的语言概括视频的主要内容）\n\n## 📋 时间线分段\n（按照视频的内容段落，列出各段的时间点和主题）\n\n## 💡 关键要点\n（列出视频中最重要的观点、信息或结论）\n\n## 🏷️ 标签与分类\n（给视频打上适合的标签）\n\n## ⭐ 总体评价\n（内容质量、信息密度、适合人群等）\n\n---\n注意：如果无法直接访问该视频，请根据 URL 信息和已有知识尽量提供有价值的分析，并说明限制。";

/// Builds the user prompt (see `spec_summarize_prompt`): the depth that the level asks
/// for, the link, the video's analysis text when there is one, and the sections expected
/// in the answer.
pub fn build_summarize_prompt(url: &str, level: &CrawlLevel, analysis: Option<&str>) -> (p: String)
    ensures
        p@ == spec_summarize_prompt(url@, *level, match analysis { Some(t) => Some(t@), None => None }),
{
    let depth = match level {
        CrawlLevel::Light => "简要总结（3-5 个要点）",
        CrawlLevel::Standard => "标准总结（时间线分段 + 关键要点 + 总体评价）",
        CrawlLevel::Full => "深度总结（完整时间线 + 详细分析 + 评论区情绪分析 + 总体评价）",
    };
    let mut p = String::from_str(PROMPT_A);
    p.append(depth);
    p.append(PROMPT_B);
    p.append(url);
    let ghost head = p@;
    match analysis {
        Some(t) => {
            p.append(PROMPT_TEXT);
            p.append(t);
            assert(p@ =~= head + (PROMPT_TEXT@ + t@));
        },
        None => {
            assert(p@ =~= head + Seq::<char>::empty());
        },
    }
    p.append(PROMPT_C);
    p.append(url);
    p.append(PROMPT_D);
    p
}

/// The system prompt: the assistant's role, answering in `language`.
pub open spec fn spec_system_prompt(language: Seq<char>) -> Seq<char> {
    "你是一个专业的视频内容分析助手。用户会给你一个视频链接，请对该视频进行全面分析并生成结构化的总结报告。请用"@
        + language + "输出。"@
}

/// The system prompt (see `spec_system_prompt`).
pub fn system_prompt(language: &str) -> (p: String)
    ensures
        p@ == spec_system_prompt(language@),
{
    let mut p = String::from_str(
        "你是一个专业的视频内容分析助手。用户会给你一个视频链接，请对该视频进行全面分析并生成结构化的总结报告。请用",
    );
    p.append(language);
    p.append("输出。");
    p
}

/// What `char::is_alphanumeric` returns for `c`.
pub uninterp spec fn char_is_alphanumeric(c: char) -> bool;

/// `char::is_alphanumeric`: whether `c` is alphabetic or numeric in Unicode. The contract
/// names the result and states, for ASCII characters, that exactly the letters and digits
/// are alphanumeric; other characters are left to the name.
#[verifier::external_body]
fn is_alphanumeric(c: char) -> (b: bool)
    ensures
        b == char_is_alphanumeric(c),
        (c as u32) < 128 ==> (b <==> (('a' <= c <= 'z') || ('A' <= c <= 'Z') || ('0' <= c <= '9'))),
{
    c.is_alphanumeric()
}

/// The character kept in a file name for `c`: itself when alphanumeric, `-` or `_`, else `_`.
pub open spec fn file_char(c: char) -> char {
    if char_is_alphanumeric(c) || c == '-' || c == '_' {
        c
    } else {
        '_'
    }
}

/// `s` without its leading `_` characters.
pub open spec fn trim_start_underscores(s: Seq<char>) -> Seq<char>
    decreases s.len(),
{
    if s.len() > 0 && s[0] == '_' {
        trim_start_underscores(s.drop_first())
    } else {
        s
    }
}

/// `s` without its trailing `_` characters.
pub open spec fn trim_end_underscores(s: Seq<char>) -> Seq<char>
    decreases s.len(),
{
    if s.len() > 0 && s.last() == '_' {
        trim_end_underscores(s.drop_last())
    } else {
        s
    }
}

/// The file name (without extension) for a video URL: every character that is not
/// alphanumeric, `-` or `_` becomes `_`, leading and trailing `_` are dropped, and at most
/// 80 characters are kept.
pub open spec fn spec_url_to_filename(url: Seq<char>) -> Seq<char> {
    let t = trim_end_underscores(trim_start_underscores(url.map_values(|c: char| file_char(c))));
    if t.len() > 80 {
        t.take(80)
    } else {
        t
    }
}

proof fn lemma_trim_start_underscores(s: Seq<char>, a: int)
    requires
        0 <= a <= s.len(),
        forall|j: int| 0 <= j < a ==> #[trigger] s[j] == '_',
        a == s.len() || s[a] != '_',
    ensures
        trim_start_underscores(s) == s.skip(a),
    decreases a,
{
    if a > 0 {
        assert(s.drop_first().skip(a - 1) =~= s.skip(a));
        assert forall|j: int| 0 <= j < a - 1 implies #[trigger] s.drop_first()[j] == '_' by {
            assert(s.drop_first()[j] == s[j + 1]);
        }
        lemma_trim_start_underscores(s.drop_first(), a - 1);
    } else {
        assert(s.skip(0) =~= s);
    }
}

proof fn lemma_trim_end_underscores(s: Seq<char>, b: int)
    requires
        0 <= b <= s.len(),
        forall|j: int| b <= j < s.len() ==> #[trigger] s[j] == '_',
        b == 0 || s[b - 1] != '_',
    ensures
        trim_end_underscores(s) == s.take(b),
    decreases s.len() - b,
{
    if b < s.len() {
        assert(s.drop_last().take(b) =~= s.take(b));
        lemma_trim_end_underscores(s.drop_last(), b);
    } else {
        assert(s.take(b) =~= s);
    }
}

/// The file name for a video URL (see `spec_url_to_filename`).
pub fn url_to_filename(url: &str) -> (name: String)
    ensures
        name@ == spec_url_to_filename(url@),
{
    let chars = str_to_chars(url);
    let ghost mapped = url@.map_values(|c: char| file_char(c));
    let mut m: Vec<char> = Vec::new();
    let mut i: usize = 0;
    while i < chars.len()
        invariant
            i <= chars@.len(),
            chars@ == url@,
            mapped == url@.map_values(|c: char| file_char(c)),
            m@ == mapped.take(i as int),
        decreases chars@.len() - i,
    {
        let c = chars[i];
        let k = if is_alphanumeric(c) || c == '-' || c == '_' { c } else { '_' };
        m.push(k);
        i = i + 1;
        assert(m@ =~= mapped.take(i as int));
    }
    assert(mapped.take(chars@.len() as int) =~= mapped);
    let n = m.len();
    let mut a: usize = 0;
    while a < n && m[a] == '_'
        invariant
            a <= n,
            n == m@.len(),
            forall|j: int| 0 <= j < a ==> #[trigger] m@[j] == '_',
        decreases n - a,
    {
        a = a + 1;
    }
    proof {
        lemma_trim_start_underscores(m@, a as int);
    }
    let mut b: usize = n;
    while b > a && m[b - 1] == '_'
        invariant
            a <= b <= n,
            n == m@.len(),
            forall|j: int| b <= j < n ==> #[trigger] m@[j] == '_',
        decreases b,
    {
        b = b - 1;
    }
    let ghost t = m@.skip(a as int);
    proof {
        assert forall|j: int| (b - a) <= j < t.len() implies #[trigger] t[j] == '_' by {
            assert(t[j] == m@[a + j]);
        }
        if b > a {
            assert(t[b - a - 1] == m@[b - 1]);
        }
        lemma_trim_end_underscores(t, (b - a) as int);
    }
    let end = if b - a > 80 { a + 80 } else { b };
    let mut out: Vec<char> = Vec::new();
    let mut k: usize = a;
    while k < end
        invariant
            a <= k <= end,
            end <= b <= n,
            n == m@.len(),
            out@ == m@.subrange(a as int, k as int),
        decreases end - k,
    {
        out.push(m[k]);
        k = k + 1;
        assert(out@ =~= m@.subrange(a as int, k as int));
    }
    proof {
        let tt = t.take((b - a) as int);
        if b - a > 80 {
            assert(out@ =~= tt.take(80));
        } else {
            assert(out@ =~= tt);
        }
    }
    chars_to_string(&out)
}

/// The summary's file name: the URL's file name with `.md`.
pub fn output_file_name(url: &str) -> (name: String)
    ensures
        name@ == spec_url_to_filename(url@) + ".md"@,
{
    let mut name = url_to_filename(url);
    name.append(".md");
    name
}

/// A file name made from a URL keeps at most 80 characters, does not start with `_`,
/// and holds only alphanumeric characters, `-` and `_`.
pub proof fn law_filename_shape(url: Seq<char>)
    ensures
        spec_url_to_filename(url).len() <= 80,
        spec_url_to_filename(url).len() > 0 ==> spec_url_to_filename(url)[0] != '_',
        forall|i: int| 0 <= i < spec_url_to_filename(url).len() ==> {
            let c = #[trigger] spec_url_to_filename(url)[i];
            char_is_alphanumeric(c) || c == '-' || c == '_'
        },
{
    let m = url.map_values(|c: char| file_char(c));
    lemma_underscore_trims(m);
    let t = trim_end_underscores(trim_start_underscores(m));
    let r = spec_url_to_filename(url);
    assert forall|i: int| 0 <= i < r.len() implies {
        let c = #[trigger] r[i];
        char_is_alphanumeric(c) || c == '-' || c == '_'
    } by {
        assert(r[i] == t[i]);
    }
    if r.len() > 0 {
        assert(r[0] == t[0]);
    }
}

proof fn lemma_underscore_trims(m: Seq<char>)
    requires
        forall|i: int| 0 <= i < m.len() ==> {
            let c = #[trigger] m[i];
            char_is_alphanumeric(c) || c == '-' || c == '_'
        },
    ensures
        ({
            let t = trim_end_underscores(trim_start_underscores(m));
            &&& t.len() > 0 ==> t[0] != '_'
            &&& forall|i: int| 0 <= i < t.len() ==> {
                let c = #[trigger] t[i];
                char_is_alphanumeric(c) || c == '-' || c == '_'
            }
        }),
{
    lemma_start_trimmed(m);
    let s = trim_start_underscores(m);
    lemma_end_trimmed(s);
}

proof fn lemma_start_trimmed(m: Seq<char>)
    requires
        forall|i: int| 0 <= i < m.len() ==> {
            let c = #[trigger] m[i];
            char_is_alphanumeric(c) || c == '-' || c == '_'
        },
    ensures
        trim_start_underscores(m).len() > 0 ==> trim_start_underscores(m)[0] != '_',
        forall|i: int| 0 <= i < trim_start_underscores(m).len() ==> {
            let c = #[trigger] trim_start_underscores(m)[i];
            char_is_alphanumeric(c) || c == '-' || c == '_'
        },
    decreases m.len(),
{
    if m.len() > 0 && m[0] == '_' {
        assert forall|i: int| 0 <= i < m.drop_first().len() implies {
            let c = #[trigger] m.drop_first()[i];
            char_is_alphanumeric(c) || c == '-' || c == '_'
        } by {
            assert(m.drop_first()[i] == m[i + 1]);
        }
        lemma_start_trimmed(m.drop_first());
    }
}

proof fn lemma_end_trimmed(s: Seq<char>)
    requires
        s.len() > 0 ==> s[0] != '_',
        forall|i: int| 0 <= i < s.len() ==> {
            let c = #[trigger] s[i];
            char_is_alphanumeric(c) || c == '-' || c == '_'
        },
    ensures
        trim_end_underscores(s).len() > 0 ==> trim_end_underscores(s)[0] != '_',
        forall|i: int| 0 <= i < trim_end_underscores(s).len() ==> {
            let c = #[trigger] trim_end_underscores(s)[i];
            char_is_alphanumeric(c) || c == '-' || c == '_'
        },
    decreases s.len(),
{
    if s.len() > 0 && s.last() == '_' {
        let d = s.drop_last();
        assert forall|i: int| 0 <= i < d.len() implies {
            let c = #[trigger] d[i];
            char_is_alphanumeric(c) || c == '-' || c == '_'
        } by {
            assert(d[i] == s[i]);
        }
        if d.len() > 0 {
            assert(d[0] == s[0]);
        }
        lemma_end_trimmed(d);
    }
}

/// Each level asks for its own depth of summary, and the prompt names it right after its
/// opening: light asks for 3-5 key points, standard (the default) for a timeline, key
/// points and an overall verdict, full for a complete timeline, detailed analysis and the
/// comment section's mood; no two levels ask for the same.
pub proof fn law_levels_ask_for_their_depth(url: Seq<char>, level: CrawlLevel, analysis: Option<Seq<char>>)
    ensures
        spec_depth(CrawlLevel::Light) == "简要总结（3-5 个要点）"@,
        spec_depth(CrawlLevel::Standard) == "标准总结（时间线分段 + 关键要点 + 总体评价）"@,
        spec_depth(CrawlLevel::Full) == "深度总结（完整时间线 + 详细分析 + 评论区情绪分析 + 总体评价）"@,
        spec_depth(CrawlLevel::Light) != spec_depth(CrawlLevel::Standard),
        spec_depth(CrawlLevel::Light) != spec_depth(CrawlLevel::Full),
        spec_depth(CrawlLevel::Standard) != spec_depth(CrawlLevel::Full),
        spec_summarize_prompt(url, level, analysis).subrange(0, (PROMPT_A@.len() + spec_depth(level).len()) as int)
            == PROMPT_A@ + spec_depth(level),
{
    reveal_strlit("简要总结（3-5 个要点）");
    reveal_strlit("标准总结（时间线分段 + 关键要点 + 总体评价）");
    reveal_strlit("深度总结（完整时间线 + 详细分析 + 评论区情绪分析 + 总体评价）");
    let p = spec_summarize_prompt(url, level, analysis);
    let head = PROMPT_A@ + spec_depth(level);
    assert(p == head + (PROMPT_B@ + url + spec_prompt_text(analysis) + PROMPT_C@ + url + PROMPT_D@));
    assert(p.subrange(0, head.len() as int) =~= head);
}

} // verus!
