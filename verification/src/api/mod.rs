//! The HTTP API's logic: the health report and the VM store.
//!
//! - [`vm_store`] — VM records, their lifecycle and their console buffers
use vstd::prelude::*;
use vstd::string::*;

use crate::hypervisor::{probe_err, probe_ok, ProbeResult};

pub mod vm_store;

verus! {

/// One dependency check of the health report.
#[derive(Debug, Clone)]
pub struct DoctorCheck {
    /// What was checked.
    pub name: String,
    /// Whether it is ready.
    pub ok: bool,
    /// Whether the program works without it.
    pub optional: bool,
    /// The probe result, rendered.
    pub detail: String,
}

/// The health report served by the API.
#[derive(Debug, Clone)]
pub struct DoctorResponse {
    /// Number of required checks that passed.
    pub required_ok: usize,
    /// Number of required checks.
    pub required_total: usize,
    /// All checks, in the order they were made.
    pub checks: Vec<DoctorCheck>,
}

/// Number of required checks among `checks`.
pub open spec fn count_required(checks: Seq<DoctorCheck>) -> nat
    decreases checks.len(),
{
    if checks.len() == 0 {
        0
    } else {
        count_required(checks.drop_last()) + if !checks.last().optional { 1nat } else { 0 }
    }
}

/// Number of required checks among `checks` that passed.
pub open spec fn count_required_ok(checks: Seq<DoctorCheck>) -> nat
    decreases checks.len(),
{
    if checks.len() == 0 {
        0
    } else {
        count_required_ok(checks.drop_last()) + if !checks.last().optional && checks.last().ok {
            1nat
        } else {
            0
        }
    }
}

/// No more required checks pass than there are required checks.
pub proof fn law_required_ok_bounded(checks: Seq<DoctorCheck>)
    ensures
        count_required_ok(checks) <= count_required(checks) <= checks.len(),
    decreases checks.len(),
{
    if checks.len() > 0 {
        law_required_ok_bounded(checks.drop_last());
    }
}

/// Counts the required checks, and those of them that passed.
pub fn tally(checks: &Vec<DoctorCheck>) -> (r: (usize, usize))
    ensures
        r.0 == count_required_ok(checks@),
        r.1 == count_required(checks@),
{
    let mut ok: usize = 0;
    let mut total: usize = 0;
    let mut i: usize = 0;
    while i < checks.len()
        invariant
            i <= checks@.len(),
            ok == count_required_ok(checks@.take(i as int)),
            total == count_required(checks@.take(i as int)),
        decreases checks@.len() - i,
    {
        proof {
            assert(checks@.take(i + 1).drop_last() =~= checks@.take(i as int));
            law_required_ok_bounded(checks@.take(i + 1));
        }
        if !checks[i].optional {
            total = total + 1;
            if checks[i].ok {
                ok = ok + 1;
            }
        }
        i = i + 1;
    }
    proof {
        assert(checks@.take(checks@.len() as int) =~= checks@);
    }
    (ok, total)
}

/// A check built from a probe result.
pub open spec fn spec_check(c: DoctorCheck, name: Seq<char>, r: ProbeResult, optional: bool) -> bool {
    &&& c.name@ == name
    &&& c.ok == r.available
    &&& c.optional == optional
    &&& c.detail@ == r.spec_render()
}

fn check(name: &str, r: &ProbeResult, optional: bool) -> (c: DoctorCheck)
    ensures
        spec_check(c, name@, *r, optional),
{
    DoctorCheck { name: String::from_str(name), ok: r.is_ok(), optional, detail: r.render() }
}

/// The health report from the five probes: the Anthropic API and yt-dlp are required;
/// the hypervisor, FFmpeg and the VM assets are optional.
pub fn doctor(
    llm: &ProbeResult,
    ytdlp: &ProbeResult,
    hv: &ProbeResult,
    ffmpeg: &ProbeResult,
    assets: &ProbeResult,
) -> (r: DoctorResponse)
    ensures
        r.checks@.len() == 5,
        spec_check(r.checks@[0], "Anthropic API"@, *llm, false),
        spec_check(r.checks@[1], "yt-dlp"@, *ytdlp, false),
        spec_check(r.checks@[2], "Hypervisor (VM)"@, *hv, true),
        spec_check(r.checks@[3], "FFmpeg (ASR)"@, *ffmpeg, true),
        spec_check(r.checks@[4], "assets/ (VM kernels)"@, *assets, true),
        r.required_ok == count_required_ok(r.checks@),
        r.required_total == count_required(r.checks@),
        r.required_total == 2,
        r.required_ok == (if llm.available { 1int } else { 0 }) + (if ytdlp.available { 1int } else { 0 }),
{
    let mut checks: Vec<DoctorCheck> = Vec::new();
    checks.push(check("Anthropic API", llm, false));
    checks.push(check("yt-dlp", ytdlp, false));
    checks.push(check("Hypervisor (VM)", hv, true));
    checks.push(check("FFmpeg (ASR)", ffmpeg, true));
    checks.push(check("assets/ (VM kernels)", assets, true));
    let (required_ok, required_total) = tally(&checks);
    proof {
        let s = checks@;
        assert(s.drop_last().drop_last().drop_last().drop_last().drop_last() =~= Seq::<DoctorCheck>::empty());
        assert(s.drop_last().drop_last().drop_last().drop_last().last() == s[0]);
        assert(s.drop_last().drop_last().drop_last().last() == s[1]);
        assert(s.drop_last().drop_last().last() == s[2]);
        assert(s.drop_last().last() == s[3]);
        assert(s.last() == s[4]);
        reveal_with_fuel(count_required, 6);
        reveal_with_fuel(count_required_ok, 6);
    }
    DoctorResponse { required_ok, required_total, checks }
}

/// The short yt-dlp probe of the API, given whether an executable was found.
pub fn probe_ytdlp_short(found: bool) -> (r: ProbeResult)
    ensures
        found ==> r@ == probe_ok("yt-dlp"@),
        !found ==> r@ == probe_err("yt-dlp"@, "not installed"@),
{
    if found {
        ProbeResult::ok("yt-dlp")
    } else {
        ProbeResult::err("yt-dlp", "not installed")
    }
}

} // verus!
