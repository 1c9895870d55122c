//! System-level commands: `doctor` and `info`.
//!
//! The probes themselves look at the file system and the environment; what is
//! decided from their results (the verdict, the lines shown, the parsed memory
//! size) is computed here.
use vstd::prelude::*;
use vstd::string::*;

use crate::hypervisor::{backend_name, spec_backend_name, HostOs, ProbeResult};
use crate::hypervisor::{probe_err, probe_ok};
use crate::text::{
    append_padded, chars_start_with, is_whitespace, is_ws, pad_right, spec_lines, split_lines,
    starts_with, str_to_chars, sub_chars, to_dec_string, trim_start, views, dec_digits,
};

verus! {

/// `doctor` sub-commands.
#[derive(Debug, Clone, Copy, PartialEq, Eq, Structural)]
pub enum DoctorCmd {
    /// The full health check.
    All,
}

/// Options of `info`.
#[derive(Debug, Clone, Copy)]
pub struct InfoCmd {
    /// Print JSON instead of a table.
    pub json: bool,
}

// ---------------------------------------------------------------------------
// doctor
// ---------------------------------------------------------------------------

/// What `doctor` concludes from the two required probes.
#[derive(Debug, Clone, Copy)]
pub struct DoctorOutcome {
    /// Number of required dependencies that are ready.
    pub required_ok: usize,
    /// Number of required dependencies.
    pub required_total: usize,
    /// Process exit code: 0 when all required dependencies are ready, else 1.
    pub exit_code: i32,
    /// Whether to print the hint for fixing the Anthropic API access.
    pub fix_llm: bool,
    /// Whether to print the hint for installing yt-dlp.
    pub fix_ytdlp: bool,
}

/// The verdict of `doctor`: the Anthropic API and yt-dlp are required, the rest is optional.
pub fn doctor_outcome(llm: &ProbeResult, ytdlp: &ProbeResult) -> (o: DoctorOutcome)
    ensures
        o.required_total == 2,
        o.required_ok == (if llm.available { 1int } else { 0 }) + (if ytdlp.available { 1int } else { 0 }),
        o.exit_code == (if o.required_ok == o.required_total { 0i32 } else { 1i32 }),
        o.fix_llm == (o.exit_code == 1 && !llm.available),
        o.fix_ytdlp == (o.exit_code == 1 && !ytdlp.available),
{
    let mut required_ok: usize = 0;
    let required_total: usize = 2;
    if llm.is_ok() {
        required_ok = required_ok + 1;
    }
    if ytdlp.is_ok() {
        required_ok = required_ok + 1;
    }
    if required_ok == required_total {
        DoctorOutcome { required_ok, required_total, exit_code: 0, fix_llm: false, fix_ytdlp: false }
    } else {
        DoctorOutcome {
            required_ok,
            required_total,
            exit_code: 1,
            fix_llm: !llm.is_ok(),
            fix_ytdlp: !ytdlp.is_ok(),
        }
    }
}

/// The marker in front of a check: ready, optional and missing, or required and missing.
pub open spec fn spec_check_prefix(ok: bool, optional: bool) -> Seq<char> {
    if ok {
        "  ✅"@
    } else if optional {
        "  ⬜"@
    } else {
        "  ❌"@
    }
}

/// What a check line shows after the name: the label when ready, else the reason.
pub open spec fn spec_check_detail(r: ProbeResult) -> Seq<char> {
    if r.available {
        r.backend@
    } else {
        match r.error {
            Some(e) => e@,
            None => "不可用"@,
        }
    }
}

/// One line of the `doctor` report: marker, name padded to 30 characters, detail.
pub open spec fn spec_check_line(name: Seq<char>, r: ProbeResult, optional: bool) -> Seq<char> {
    spec_check_prefix(r.available, optional) + " "@ + pad_right(name, 30) + " "@ + spec_check_detail(r)
}

/// Formats one line of the `doctor` report.
pub fn check_line(name: &str, result: &ProbeResult, optional: bool) -> (s: String)
    ensures
        s@ == spec_check_line(name@, *result, optional),
{
    let mut s = if result.is_ok() {
        String::from_str("  ✅")
    } else if optional {
        String::from_str("  ⬜")
    } else {
        String::from_str("  ❌")
    };
    s.append(" ");
    append_padded(&mut s, name, 30);
    s.append(" ");
    if result.is_ok() {
        s.append(result.backend.as_str());
    } else {
        match &result.error {
            Some(e) => s.append(e.as_str()),
            None => s.append("不可用"),
        }
    }
    s
}

/// Executable names under which yt-dlp is searched for on the path.
pub fn ytdlp_names(os: HostOs) -> (v: Vec<&'static str>)
    ensures
        os == HostOs::Windows ==> v@.len() == 2 && v@[0]@ == "yt-dlp.exe"@ && v@[1]@ == "yt-dlp"@,
        os != HostOs::Windows ==> v@.len() == 1 && v@[0]@ == "yt-dlp"@,
{
    if os == HostOs::Windows {
        vec!["yt-dlp.exe", "yt-dlp"]
    } else {
        vec!["yt-dlp"]
    }
}

/// Fixed locations where yt-dlp is looked for when it is not on the path.
pub fn ytdlp_candidates() -> (v: Vec<&'static str>)
    ensures
        v@.len() == 3,
        v@[0]@ == "D:/software/python/3115/Scripts/yt-dlp.exe"@,
        v@[1]@ == "/usr/local/bin/yt-dlp"@,
        v@[2]@ == "/usr/bin/yt-dlp"@,
{
    vec!["D:/software/python/3115/Scripts/yt-dlp.exe", "/usr/local/bin/yt-dlp", "/usr/bin/yt-dlp"]
}

/// The yt-dlp probe, given whether an executable was found.
pub fn probe_ytdlp(found: bool) -> (r: ProbeResult)
    ensures
        found ==> r@ == probe_ok("yt-dlp"@),
        !found ==> r@ == probe_err("yt-dlp"@, "未安装 - 运行: pip install yt-dlp"@),
{
    if found {
        ProbeResult::ok("yt-dlp")
    } else {
        ProbeResult::err("yt-dlp", "未安装 - 运行: pip install yt-dlp")
    }
}

/// Files looked for, in order, as a browser cookie export.
pub fn cookie_candidates() -> (v: Vec<&'static str>)
    ensures
        v@.len() == 3,
        v@[0]@ == "./cookies.txt"@,
        v@[1]@ == "./bilibili_cookies.txt"@,
        v@[2]@ == "./youtube_cookies.txt"@,
{
    vec!["./cookies.txt", "./bilibili_cookies.txt", "./youtube_cookies.txt"]
}

/// The cookie-file probe, given the first candidate that exists.
pub fn probe_cookies(found: Option<&str>) -> (r: ProbeResult)
    ensures
        found matches Some(c) ==> r@ == probe_ok("找到 "@ + c@),
        found is None ==> r@ == probe_err("cookies.txt"@, "未找到 - 用浏览器插件导出（见 README）"@),
{
    match found {
        Some(c) => {
            let mut label = String::from_str("找到 ");
            label.append(c);
            ProbeResult::ok(label.as_str())
        },
        None => ProbeResult::err("cookies.txt", "未找到 - 用浏览器插件导出（见 README）"),
    }
}

// ---------------------------------------------------------------------------
// info
// ---------------------------------------------------------------------------

/// The value of the decimal digits `s`.
pub open spec fn digits_value(s: Seq<char>) -> nat
    decreases s.len(),
{
    if s.len() == 0 {
        0
    } else {
        digits_value(s.drop_last()) * 10 + ((s.last() as nat) - ('0' as nat)) as nat
    }
}

/// Whether every character of `s` is an ASCII digit.
pub open spec fn all_digits(s: Seq<char>) -> bool {
    forall|i: int| 0 <= i < s.len() ==> '0' <= #[trigger] s[i] <= '9'
}

/// `s` without a leading `+`.
pub open spec fn unsigned_digits(s: Seq<char>) -> Seq<char> {
    if s.len() > 0 && s[0] == '+' {
        s.drop_first()
    } else {
        s
    }
}

/// What `u64::from_str` gives for `s`: an optional `+`, then at least one digit, and
/// a value that fits.
pub open spec fn spec_parse_u64(s: Seq<char>) -> Option<u64> {
    let d = unsigned_digits(s);
    if d.len() > 0 && all_digits(d) && digits_value(d) <= u64::MAX {
        Some(digits_value(d) as u64)
    } else {
        None
    }
}

/// The characters of `s` up to its first white space.
pub open spec fn until_ws(s: Seq<char>) -> Seq<char>
    decreases s.len(),
{
    if s.len() == 0 || is_ws(s[0]) {
        Seq::empty()
    } else {
        seq![s[0]] + until_ws(s.drop_first())
    }
}

/// The first white-space separated word of `s` (empty when there is none).
pub open spec fn first_word(s: Seq<char>) -> Seq<char> {
    until_ws(trim_start(s))
}

/// The kilobytes given by the first `MemTotal:` line, among `lines`, whose first word parses.
pub open spec fn meminfo_total_kb(lines: Seq<Seq<char>>) -> Option<u64>
    decreases lines.len(),
{
    if lines.len() == 0 {
        None
    } else {
        let l = lines[0];
        let p = "MemTotal:"@;
        if starts_with(l, p) && spec_parse_u64(first_word(l.skip(p.len() as int))) is Some {
            spec_parse_u64(first_word(l.skip(p.len() as int)))
        } else {
            meminfo_total_kb(lines.drop_first())
        }
    }
}

/// Total memory in MB read from the text of `/proc/meminfo` (0 when it is not given there).
pub open spec fn spec_meminfo_total_mb(text: Seq<char>) -> u64 {
    match meminfo_total_kb(spec_lines(text)) {
        Some(kb) => (kb / 1024) as u64,
        None => 0,
    }
}

proof fn lemma_digits_value_prefix(s: Seq<char>, i: int)
    requires
        0 <= i <= s.len(),
    ensures
        digits_value(s.take(i)) <= digits_value(s),
    decreases s.len(),
{
    if i < s.len() {
        assert(s.drop_last().take(i) =~= s.take(i));
        lemma_digits_value_prefix(s.drop_last(), i);
    } else {
        assert(s.take(i) =~= s);
    }
}

/// Parses `s` as `u64::from_str` does.
pub fn parse_u64(s: &Vec<char>) -> (r: Option<u64>)
    ensures
        r == spec_parse_u64(s@),
{
    let start: usize = if s.len() > 0 && s[0] == '+' { 1 } else { 0 };
    let ghost d = unsigned_digits(s@);
    proof {
        assert(d =~= s@.skip(start as int));
    }
    if start >= s.len() {
        return None;
    }
    let mut value: u64 = 0;
    let mut i: usize = start;
    while i < s.len()
        invariant
            start <= i <= s@.len(),
            start < s@.len(),
            d == s@.skip(start as int),
            d == unsigned_digits(s@),
            all_digits(d.take(i - start)),
            value == digits_value(d.take(i - start)),
        decreases s@.len() - i,
    {
        let c = s[i];
        proof {
            assert(d.take(i - start + 1).drop_last() =~= d.take(i - start));
            assert(d.take(i - start + 1).last() == c);
        }
        if !('0' <= c && c <= '9') {
            proof {
                assert(d[i - start] == c);
                assert(!all_digits(d));
                assert(spec_parse_u64(s@) is None);
            }
            return None;
        }
        let digit: u64 = (c as u32 - '0' as u32) as u64;
        let next = match value.checked_mul(10) {
            Some(m) => m.checked_add(digit),
            None => None,
        };
        match next {
            Some(n) => {
                value = n;
            },
            None => {
                proof {
                    assert(digits_value(d.take(i - start + 1)) == value * 10 + digit);
                    lemma_digits_value_prefix(d, i - start + 1);
                    assert(digits_value(d) > u64::MAX);
                    assert(spec_parse_u64(s@) is None);
                }
                return None;
            },
        }
        i = i + 1;
        proof {
            assert forall|j: int| 0 <= j < d.take(i - start).len() implies '0' <= #[trigger] d.take(i - start)[j] <= '9' by {
                if j < i - start - 1 {
                    assert(d.take(i - start)[j] == d.take(i - start - 1)[j]);
                }
            }
        }
    }
    proof {
        assert(d.take(s@.len() - start) =~= d);
    }
    Some(value)
}

/// The characters of `s` from `from` up to the first white space.
fn word_from(s: &Vec<char>, from: usize) -> (r: Vec<char>)
    requires
        from <= s@.len(),
    ensures
        r@ == until_ws(s@.skip(from as int)),
    decreases s@.len() - from,
{
    if from < s.len() && !is_whitespace(s[from]) {
        let rest = word_from(s, from + 1);
        let mut r: Vec<char> = Vec::new();
        r.push(s[from]);
        let mut k: usize = 0;
        while k < rest.len()
            invariant
                k <= rest@.len(),
                r@ == seq![s@[from as int]] + rest@.take(k as int),
            decreases rest@.len() - k,
        {
            r.push(rest[k]);
            k = k + 1;
            assert(r@ =~= seq![s@[from as int]] + rest@.take(k as int));
        }
        proof {
            assert(rest@.take(rest@.len() as int) =~= rest@);
            assert(s@.skip(from as int).drop_first() =~= s@.skip(from + 1));
        }
        r
    } else {
        Vec::new()
    }
}

proof fn lemma_trim_start_is_skip(s: Seq<char>, a: int)
    requires
        0 <= a <= s.len(),
        forall|j: int| 0 <= j < a ==> is_ws(#[trigger] s[j]),
        a == s.len() || !is_ws(s[a]),
    ensures
        trim_start(s) == s.skip(a),
    decreases a,
{
    if a > 0 {
        assert(s.drop_first().skip(a - 1) =~= s.skip(a));
        assert forall|j: int| 0 <= j < a - 1 implies is_ws(#[trigger] s.drop_first()[j]) by {
            assert(s.drop_first()[j] == s[j + 1]);
        }
        lemma_trim_start_is_skip(s.drop_first(), a - 1);
    } else {
        assert(s.skip(0) =~= s);
    }
}

/// The first white-space separated word of `s`.
fn first_word_of(s: &Vec<char>) -> (r: Vec<char>)
    ensures
        r@ == first_word(s@),
{
    let mut a: usize = 0;
    while a < s.len() && is_whitespace(s[a])
        invariant
            a <= s@.len(),
            forall|j: int| 0 <= j < a ==> is_ws(#[trigger] s@[j]),
        decreases s@.len() - a,
    {
        a = a + 1;
    }
    proof {
        lemma_trim_start_is_skip(s@, a as int);
    }
    word_from(s, a)
}

/// Total memory in MB as given by the text of `/proc/meminfo`: the first `MemTotal:`
/// line whose value parses, in kB, divided by 1024; 0 when there is none.
pub fn meminfo_total_mb(text: &str) -> (mb: u64)
    ensures
        mb == spec_meminfo_total_mb(text@),
{
    let chars = str_to_chars(text);
    let lines = split_lines(&chars);
    let prefix = str_to_chars("MemTotal:");
    let mut i: usize = 0;
    proof {
        assert(views(lines@).skip(0) =~= views(lines@));
    }
    while i < lines.len()
        invariant
            i <= lines@.len(),
            prefix@ == "MemTotal:"@,
            views(lines@) == spec_lines(text@),
            meminfo_total_kb(views(lines@)) == meminfo_total_kb(views(lines@).skip(i as int)),
        decreases lines@.len() - i,
    {
        let line = &lines[i];
        proof {
            assert(views(lines@).skip(i as int)[0] == line@);
            assert(views(lines@).skip(i as int).drop_first() =~= views(lines@).skip(i + 1));
        }
        if chars_start_with(line, &prefix) {
            let rest = sub_chars(line, prefix.len(), line.len());
            proof {
                assert(rest@ =~= line@.skip(prefix@.len() as int));
            }
            let word = first_word_of(&rest);
            match parse_u64(&word) {
                Some(kb) => {
                    return kb / 1024;
                },
                None => {},
            }
        }
        i = i + 1;
    }
    0
}

/// What `info` reports about the host.
#[derive(Debug, Clone)]
pub struct SystemInfo {
    /// Version of this program.
    pub version: String,
    /// Operating system name.
    pub platform: String,
    /// Name of the native hypervisor back end.
    pub hypervisor: String,
    /// Number of logical CPUs.
    pub cpu_count: usize,
    /// Total memory in MB (0 when unknown).
    pub total_memory_mb: u64,
    /// Operating system family.
    pub kernel: String,
    /// The yt-dlp probe, rendered.
    pub ytdlp: String,
    /// The Anthropic API probe, rendered.
    pub llm: String,
}

impl SystemInfo {
    /// Assembles the report from what was gathered: the CPU count defaults to 1 when
    /// unknown, the memory size is read from the `/proc/meminfo` text when there is one.
    pub fn gather(
        version: &str,
        platform: &str,
        family: &str,
        os: HostOs,
        cpus: Option<usize>,
        meminfo: Option<&str>,
        ytdlp: &ProbeResult,
        llm: &ProbeResult,
    ) -> (s: Self)
        ensures
            s.version@ == version@,
            s.platform@ == platform@,
            s.hypervisor@ == spec_backend_name(os),
            s.cpu_count == (match cpus { Some(n) => n, None => 1 }),
            s.total_memory_mb == (match meminfo { Some(t) => spec_meminfo_total_mb(t@), None => 0 }),
            s.kernel@ == family@,
            s.ytdlp@ == ytdlp.spec_render(),
            s.llm@ == llm.spec_render(),
    {
        SystemInfo {
            version: String::from_str(version),
            platform: String::from_str(platform),
            hypervisor: String::from_str(backend_name(os)),
            cpu_count: match cpus {
                Some(n) => n,
                None => 1,
            },
            total_memory_mb: match meminfo {
                Some(t) => meminfo_total_mb(t),
                None => 0,
            },
            kernel: String::from_str(family),
            ytdlp: ytdlp.render(),
            llm: llm.render(),
        }
    }

    /// The table printed by `info`, one line per field, each line ending in a newline.
    pub open spec fn spec_table(&self) -> Seq<char> {
        "version       : "@ + self.version@ + "\n"@
        + "platform      : "@ + self.platform@ + "\n"@
        + "hypervisor    : "@ + self.hypervisor@ + "\n"@
        + "cpu count     : "@ + dec_digits(self.cpu_count as nat) + "\n"@
        + "total memory  : "@ + dec_digits(self.total_memory_mb as nat) + " MB"@ + "\n"@
        + "kernel family : "@ + self.kernel@ + "\n"@
        + "yt-dlp        : "@ + self.ytdlp@ + "\n"@
        + "llm           : "@ + self.llm@ + "\n"@
    }

    /// Formats the table printed by `info` (see `spec_table`).
    pub fn table(&self) -> (s: String)
        ensures
            s@ == self.spec_table(),
    {
        let mut s = String::from_str("version       : ");
        s.append(self.version.as_str());
        s.append("\n");
        s.append("platform      : ");
        s.append(self.platform.as_str());
        s.append("\n");
        s.append("hypervisor    : ");
        s.append(self.hypervisor.as_str());
        s.append("\n");
        s.append("cpu count     : ");
        let cpus = to_dec_string(self.cpu_count as u64);
        s.append(cpus.as_str());
        s.append("\n");
        s.append("total memory  : ");
        let mem = to_dec_string(self.total_memory_mb);
        s.append(mem.as_str());
        s.append(" MB");
        s.append("\n");
        s.append("kernel family : ");
        s.append(self.kernel.as_str());
        s.append("\n");
        s.append("yt-dlp        : ");
        s.append(self.ytdlp.as_str());
        s.append("\n");
        s.append("llm           : ");
        s.append(self.llm.as_str());
        s.append("\n");
        s
    }
}

} // verus!
