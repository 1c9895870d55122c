//! The host-side LLM proxy: the guest's agent sends its API requests to the
//! gateway, which forwards them to the real API with the host's key.
//!
//! Listening and forwarding is the caller's part; where a request goes, which
//! headers it carries and what a failure is answered with is decided here.
use vstd::prelude::*;
use vstd::string::*;

use crate::error::Error;

verus! {

/// The API version header value sent upstream.
pub const ANTHROPIC_VERSION: &'static str = "2023-06-01";

/// The upstream used when none is configured.
pub const DEFAULT_BASE_URL: &'static str = "https://api.anthropic.com";

/// The largest request body forwarded, in bytes.
pub const MAX_BODY_BYTES: usize = 10 * 1024 * 1024;

/// `s` without its trailing `/` characters (`trim_end_matches('/')`).
pub open spec fn trim_trailing_slashes(s: Seq<char>) -> Seq<char>
    decreases s.len(),
{
    if s.len() > 0 && s.last() == '/' {
        trim_trailing_slashes(s.drop_last())
    } else {
        s
    }
}

/// Where a request for `path_and_query` is forwarded: the base URL without trailing
/// slashes, then the path and query (`/` when the request has none).
pub open spec fn spec_upstream_url(base: Seq<char>, path_and_query: Option<Seq<char>>) -> Seq<char> {
    trim_trailing_slashes(base) + match path_and_query {
        Some(p) => p,
        None => "/"@,
    }
}

fn trimmed_len(v: &Vec<char>) -> (n: usize)
    ensures
        n <= v@.len(),
        v@.take(n as int) == trim_trailing_slashes(v@),
{
    let mut n = v.len();
    proof {
        assert(v@.take(n as int) =~= v@);
    }
    while n > 0 && v[n - 1] == '/'
        invariant
            n <= v@.len(),
            trim_trailing_slashes(v@.take(n as int)) == trim_trailing_slashes(v@),
        decreases n,
    {
        assert(v@.take(n as int).drop_last() =~= v@.take(n - 1));
        n = n - 1;
    }
    proof {
        if n > 0 {
            assert(v@.take(n as int).last() == v@[n - 1]);
        }
    }
    n
}

/// The URL a request is forwarded to (see `spec_upstream_url`).
pub fn upstream_url(base: &str, path_and_query: Option<&str>) -> (u: String)
    ensures
        u@ == spec_upstream_url(base@, match path_and_query {
            Some(p) => Some(p@),
            None => None::<Seq<char>>,
        }),
{
    let v = crate::text::str_to_chars(base);
    proof {
        assert(v@.take(v@.len() as int) =~= v@);
    }
    let n = trimmed_len(&v);
    let head = crate::text::sub_chars(&v, 0, n);
    proof {
        assert(head@ =~= v@.take(n as int));
    }
    let mut u = crate::text::chars_to_string(&head);
    match path_and_query {
        Some(p) => u.append(p),
        None => u.append("/"),
    }
    u
}

/// The key used upstream: `ANTHROPIC_AUTH_TOKEN`, else `ANTHROPIC_API_KEY`; without
/// either the proxy does not start.
pub fn select_api_key(auth_token: Option<String>, api_key: Option<String>) -> (r: Result<String, Error>)
    ensures
        match auth_token {
            Some(t) => r matches Ok(k) && k@ == t@,
            None => match api_key {
                Some(k0) => r matches Ok(k) && k@ == k0@,
                None => r matches Err(Error::Agent(m)) && m@ == "ANTHROPIC_AUTH_TOKEN not set"@,
            },
        },
{
    match auth_token {
        Some(t) => Ok(t),
        None => match api_key {
            Some(k) => Ok(k),
            None => Err(Error::Agent(String::from_str("ANTHROPIC_AUTH_TOKEN not set"))),
        },
    }
}

/// The upstream base URL: the configured one, else `DEFAULT_BASE_URL`.
pub fn select_base_url(configured: Option<String>) -> (u: String)
    ensures
        u@ == match configured {
            Some(c) => c@,
            None => DEFAULT_BASE_URL@,
        },
{
    match configured {
        Some(c) => c,
        None => String::from_str(DEFAULT_BASE_URL),
    }
}

/// The names of a header list.
pub open spec fn header_names(h: Seq<(String, Vec<u8>)>) -> Seq<Seq<char>> {
    h.map_values(|e: (String, Vec<u8>)| e.0@)
}

/// A header list as (name, value) pairs of plain values.
pub open spec fn header_view(h: Seq<(String, Vec<u8>)>) -> Seq<(Seq<char>, Seq<u8>)> {
    h.map_values(|e: (String, Vec<u8>)| (e.0@, e.1@))
}

/// Whether the proxy replaces or drops a header of this (lower-case) name.
pub open spec fn is_overridden(name: Seq<char>) -> bool {
    name == "x-api-key"@ || name == "anthropic-version"@ || name == "host"@
}

/// The headers kept from the guest's request, in their order.
pub open spec fn kept_headers(h: Seq<(Seq<char>, Seq<u8>)>) -> Seq<(Seq<char>, Seq<u8>)>
    decreases h.len(),
{
    if h.len() == 0 {
        Seq::empty()
    } else if is_overridden(h.last().0) {
        kept_headers(h.drop_last())
    } else {
        kept_headers(h.drop_last()).push(h.last())
    }
}

/// The headers sent upstream: the guest's, without `x-api-key`, `anthropic-version` and
/// `host`, then the host's key and the API version.
pub open spec fn spec_forward_headers(h: Seq<(Seq<char>, Seq<u8>)>, api_key: Seq<char>) -> Seq<(Seq<char>, Seq<u8>)> {
    kept_headers(h) + seq![
        ("x-api-key"@, vstd::utf8::encode_utf8(api_key)),
        ("anthropic-version"@, vstd::utf8::encode_utf8(ANTHROPIC_VERSION@)),
    ]
}

fn str_bytes(s: &str) -> (v: Vec<u8>)
    ensures
        v@ == vstd::utf8::encode_utf8(s@),
{
    let b = s.as_bytes();
    let mut v: Vec<u8> = Vec::new();
    let mut i: usize = 0;
    while i < b.len()
        invariant
            i <= b@.len(),
            b@ == vstd::utf8::encode_utf8(s@),
            v@ == b@.take(i as int),
        decreases b@.len() - i,
    {
        v.push(b[i]);
        i = i + 1;
        assert(v@ =~= b@.take(i as int));
    }
    assert(b@.take(b@.len() as int) =~= b@);
    v
}

fn copy_bytes(b: &Vec<u8>) -> (v: Vec<u8>)
    ensures
        v@ == b@,
{
    let mut v: Vec<u8> = Vec::new();
    let mut i: usize = 0;
    while i < b.len()
        invariant
            i <= b@.len(),
            v@ == b@.take(i as int),
        decreases b@.len() - i,
    {
        v.push(b[i]);
        i = i + 1;
        assert(v@ =~= b@.take(i as int));
    }
    assert(b@.take(b@.len() as int) =~= b@);
    v
}

/// The headers of the forwarded request (see `spec_forward_headers`); names are the
/// lower-case names of the incoming request.
pub fn forward_headers(headers: &Vec<(String, Vec<u8>)>, api_key: &str) -> (r: Vec<(String, Vec<u8>)>)
    ensures
        header_view(r@) == spec_forward_headers(header_view(headers@), api_key@),
{
    let key_name = String::from_str("x-api-key");
    let version_name = String::from_str("anthropic-version");
    let host_name = String::from_str("host");
    let mut out: Vec<(String, Vec<u8>)> = Vec::new();
    let mut i: usize = 0;
    while i < headers.len()
        invariant
            i <= headers@.len(),
            key_name@ == "x-api-key"@,
            version_name@ == "anthropic-version"@,
            host_name@ == "host"@,
            header_view(out@) == kept_headers(header_view(headers@.take(i as int))),
        decreases headers@.len() - i,
    {
        let ghost before = out@;
        proof {
            assert(header_view(headers@.take(i + 1)).drop_last() =~= header_view(headers@.take(i as int)));
            assert(header_view(headers@.take(i + 1)).last() == (headers@[i as int].0@, headers@[i as int].1@));
        }
        let name = &headers[i].0;
        if !(*name == key_name || *name == version_name || *name == host_name) {
            out.push((name.clone(), copy_bytes(&headers[i].1)));
            assert(header_view(out@) =~= header_view(before).push((headers@[i as int].0@, headers@[i as int].1@)));
        }
        i = i + 1;
    }
    proof {
        assert(headers@.take(headers@.len() as int) =~= headers@);
    }
    let ghost kept = out@;
    out.push((key_name, str_bytes(api_key)));
    out.push((version_name, str_bytes(ANTHROPIC_VERSION)));
    assert(header_view(out@) =~= spec_forward_headers(header_view(headers@), api_key@));
    out
}

/// How forwarding a request can fail.
#[derive(Debug, Clone, Copy, PartialEq, Eq, Structural)]
pub enum ProxyFailure {
    /// The guest's request body could not be read or exceeds `MAX_BODY_BYTES`.
    RequestBody,
    /// The upstream request failed.
    Upstream,
    /// The upstream response body could not be read.
    UpstreamBody,
    /// The response to the guest could not be built.
    Response,
}

/// The HTTP status answered to the guest for a failure.
pub fn failure_status(f: ProxyFailure) -> (code: u16)
    ensures
        code == match f {
            ProxyFailure::RequestBody => 400u16,
            ProxyFailure::Upstream => 502u16,
            ProxyFailure::UpstreamBody => 502u16,
            ProxyFailure::Response => 500u16,
        },
{
    match f {
        ProxyFailure::RequestBody => 400,
        ProxyFailure::Upstream => 502,
        ProxyFailure::UpstreamBody => 502,
        ProxyFailure::Response => 500,
    }
}

/// The forwarded request always carries the host's key exactly once and never the
/// guest's `host` header.
pub proof fn law_forward_headers_override(h: Seq<(Seq<char>, Seq<u8>)>, api_key: Seq<char>)
    ensures
        forall|i: int| 0 <= i < kept_headers(h).len() ==> !is_overridden(#[trigger] kept_headers(h)[i].0),
        spec_forward_headers(h, api_key).last().0 == "anthropic-version"@,
        spec_forward_headers(h, api_key)[spec_forward_headers(h, api_key).len() - 2]
            == ("x-api-key"@, vstd::utf8::encode_utf8(api_key)),
    decreases h.len(),
{
    if h.len() > 0 {
        law_forward_headers_override(h.drop_last(), api_key);
        let k = kept_headers(h);
        let k0 = kept_headers(h.drop_last());
        assert forall|i: int| 0 <= i < k.len() implies !is_overridden(#[trigger] k[i].0) by {
            if i < k0.len() {
                assert(k[i] == k0[i]);
            }
        }
    }
}

/// Whether the proxy passes a guest header on: every header but `x-api-key`,
/// `anthropic-version` and `host`.
pub open spec fn passes_guest_header(e: (Seq<char>, Seq<u8>)) -> bool {
    e.0 != "x-api-key"@ && e.0 != "anthropic-version"@ && e.0 != "host"@
}

proof fn lemma_kept_is_filter(h: Seq<(Seq<char>, Seq<u8>)>)
    ensures
        kept_headers(h) == h.filter(|e: (Seq<char>, Seq<u8>)| passes_guest_header(e)),
    decreases h.len(),
{
    reveal(Seq::filter);
    if h.len() > 0 {
        lemma_kept_is_filter(h.drop_last());
    }
}

/// The forwarded request carries every guest header, value and order unchanged, except
/// the guest's `x-api-key`, `anthropic-version` and `host`, which are dropped; then the
/// host's key as `x-api-key` and `anthropic-version: 2023-06-01`.
pub proof fn law_forward_keeps_guest_headers(h: Seq<(Seq<char>, Seq<u8>)>, api_key: Seq<char>)
    ensures
        spec_forward_headers(h, api_key) == h.filter(|e: (Seq<char>, Seq<u8>)| passes_guest_header(e)) + seq![
            ("x-api-key"@, vstd::utf8::encode_utf8(api_key)),
            ("anthropic-version"@, vstd::utf8::encode_utf8("2023-06-01"@)),
        ],
        forall|i: int| 0 <= i < h.len() && passes_guest_header(#[trigger] h[i])
            ==> spec_forward_headers(h, api_key).contains(h[i]),
{
    lemma_kept_is_filter(h);
    broadcast use Seq::lemma_filter_contains;
    let f = h.filter(|e: (Seq<char>, Seq<u8>)| passes_guest_header(e));
    let out = spec_forward_headers(h, api_key);
    assert forall|i: int| 0 <= i < h.len() && passes_guest_header(#[trigger] h[i]) implies out.contains(h[i]) by {
        assert(f.contains(h[i]));
        let j = choose|j: int| 0 <= j < f.len() && f[j] == h[i];
        assert(out[j] == h[i]);
    }
}

} // verus!
