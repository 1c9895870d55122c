//! VM records (`vm.json` + `runtime_state.json`): creation rules, lifecycle
//! transitions, the summary served by the API, and the per-VM console buffers.
//!
//! Reading and writing the files is the caller's part; everything decided from
//! their contents is here.
use vstd::prelude::*;
use vstd::string::*;

use crate::error::Error;
use crate::hypervisor::ProbeResult;
use crate::text::{dec_digits, to_dec_string};
use crate::vmm::{VmConfig, VmState};

verus! {

/// Number of console lines kept per VM; older lines are dropped.
pub const CONSOLE_CAPACITY: usize = 500;

/// Kernel command line given to a VM created without one.
pub const CREATE_DEFAULT_CMDLINE: &'static str =
    "earlyprintk=ttyS0,115200 console=ttyS0,115200 root=/dev/vda rw init=/etc/init.d/rcS";

/// The contents of a list of strings.
pub open spec fn string_views(v: Seq<String>) -> Seq<Seq<char>> {
    v.map_values(|s: String| s@)
}

/// The last `n` elements of `s` (all of them when there are fewer).
pub open spec fn keep_last<T>(s: Seq<T>, n: nat) -> Seq<T> {
    if s.len() > n {
        s.skip(s.len() - n)
    } else {
        s
    }
}

/// A copy of `v`.
pub fn copy_lines(v: &Vec<String>) -> (r: Vec<String>)
    ensures
        string_views(r@) == string_views(v@),
{
    let mut r: Vec<String> = Vec::new();
    let mut i: usize = 0;
    while i < v.len()
        invariant
            i <= v@.len(),
            r@ == v@.take(i as int),
        decreases v@.len() - i,
    {
        r.push(v[i].clone());
        i = i + 1;
        assert(r@ =~= v@.take(i as int));
    }
    assert(v@.take(v@.len() as int) =~= v@);
    r
}

/// Appends `line` to a console buffer and drops the oldest lines beyond the capacity.
pub fn push_line(buf: &mut Vec<String>, line: String)
    ensures
        string_views(final(buf)@) == keep_last(string_views(old(buf)@).push(line@), CONSOLE_CAPACITY as nat),
{
    let ghost pushed = string_views(old(buf)@).push(line@);
    buf.push(line);
    assert(string_views(buf@) =~= pushed);
    if buf.len() > CONSOLE_CAPACITY {
        let drop = buf.len() - CONSOLE_CAPACITY;
        let mut kept: Vec<String> = Vec::new();
        let mut i: usize = drop;
        while i < buf.len()
            invariant
                drop <= i <= buf@.len(),
                drop == buf@.len() - CONSOLE_CAPACITY,
                string_views(buf@) == pushed,
                kept@ == buf@.subrange(drop as int, i as int),
            decreases buf@.len() - i,
        {
            kept.push(buf[i].clone());
            i = i + 1;
            assert(kept@ =~= buf@.subrange(drop as int, i as int));
        }
        assert(string_views(buf@.subrange(drop as int, buf@.len() as int)) =~= pushed.skip(drop as int));
        *buf = kept;
    }
}

/// Console lines of every VM, by VM name.
#[derive(Debug)]
pub struct ConsoleBuffers {
    entries: Vec<(String, Vec<String>)>,
}

impl ConsoleBuffers {
    /// The buffers as (name, lines) pairs.
    pub closed spec fn entries(&self) -> Seq<(Seq<char>, Seq<Seq<char>>)> {
        self.entries@.map_values(|e: (String, Vec<String>)| (e.0@, string_views(e.1@)))
    }

    /// No VM name occurs twice.
    pub closed spec fn wf(&self) -> bool {
        forall|i: int, j: int|
            0 <= i < j < self.entries@.len() ==> #[trigger] self.entries@[i].0@ != #[trigger] self.entries@[j].0@
    }

    /// Whether a buffer exists for `name`.
    pub open spec fn has(&self, name: Seq<char>) -> bool {
        exists|i: int| 0 <= i < self.entries().len() && #[trigger] self.entries()[i].0 == name
    }

    /// The console lines of `name` (none when it has no buffer).
    pub open spec fn lines_of(&self, name: Seq<char>) -> Seq<Seq<char>> {
        if self.has(name) {
            self.entries()[choose|i: int| 0 <= i < self.entries().len() && #[trigger] self.entries()[i].0 == name].1
        } else {
            Seq::empty()
        }
    }

    /// No buffers.
    pub fn new() -> (b: Self)
        ensures
            b.wf(),
            forall|n: Seq<char>| !b.has(n),
    {
        let b = ConsoleBuffers { entries: Vec::new() };
        proof {
            assert forall|n: Seq<char>| !b.has(n) by {
                assert(b.entries().len() == 0);
            }
        }
        b
    }

    fn find(&self, name: &str) -> (r: Option<usize>)
        requires
            self.wf(),
        ensures
            match r {
                Some(i) => i < self.entries@.len() && self.entries@[i as int].0@ == name@
                    && self.has(name@)
                    && self.lines_of(name@) == string_views(self.entries@[i as int].1@),
                None => !self.has(name@),
            },
    {
        let key = String::from_str(name);
        let mut i: usize = 0;
        while i < self.entries.len()
            invariant
                i <= self.entries@.len(),
                key@ == name@,
                self.wf(),
                forall|j: int| 0 <= j < i ==> (#[trigger] self.entries@[j]).0@ != name@,
            decreases self.entries@.len() - i,
        {
            if self.entries[i].0 == key {
                proof {
                    assert(self.entries()[i as int].0 == name@);
                    assert(self.has(name@));
                    let c = choose|k: int| 0 <= k < self.entries().len() && #[trigger] self.entries()[k].0 == name@;
                    if c != i {
                        if c < i {
                            assert(self.entries@[c].0@ != self.entries@[i as int].0@);
                        } else {
                            assert(self.entries@[i as int].0@ != self.entries@[c].0@);
                        }
                    }
                }
                return Some(i);
            }
            i = i + 1;
        }
        proof {
            assert forall|k: int| 0 <= k < self.entries().len() implies #[trigger] self.entries()[k].0 != name@ by {
                assert(self.entries()[k].0 == self.entries@[k].0@);
            }
        }
        None
    }

    /// Appends `line` to the buffer of `name`, creating it when needed, and keeps only
    /// its last `CONSOLE_CAPACITY` lines. Other buffers are unchanged.
    pub fn push(&mut self, name: &str, line: String)
        requires
            old(self).wf(),
        ensures
            final(self).wf(),
            final(self).has(name@),
            final(self).lines_of(name@) == keep_last(
                old(self).lines_of(name@).push(line@),
                CONSOLE_CAPACITY as nat,
            ),
            forall|n: Seq<char>| n != name@ ==> #[trigger] final(self).has(n) == old(self).has(n),
            forall|n: Seq<char>| n != name@ ==> #[trigger] final(self).lines_of(n) == old(self).lines_of(n),
    {
        match self.find(name) {
            Some(i) => {
                let ghost before = *self;
                let mut entry = self.entries.remove(i);
                push_line(&mut entry.1, line);
                self.entries.insert(i, entry);
                proof {
                    assert forall|k: int| 0 <= k < self.entries@.len() && k != i implies
                        #[trigger] self.entries@[k] == before.entries@[k] by {}
                    assert forall|a: int, b: int| 0 <= a < b < self.entries@.len() implies
                        #[trigger] self.entries@[a].0@ != #[trigger] self.entries@[b].0@ by {
                        assert(self.entries@[a].0@ == before.entries@[a].0@);
                        assert(self.entries@[b].0@ == before.entries@[b].0@);
                    }
                    self.lemma_lookup(i as int);
                    assert forall|n: Seq<char>| n != name@ implies #[trigger] self.has(n) == old(self).has(n) by {
                        before.lemma_same_keys(*self, n, i as int);
                    }
                    assert forall|n: Seq<char>| n != name@ implies #[trigger] self.lines_of(n) == old(self).lines_of(n) by {
                        before.lemma_same_keys(*self, n, i as int);
                    }
                }
            },
            None => {
                let ghost before = *self;
                let mut lines: Vec<String> = Vec::new();
                push_line(&mut lines, line);
                self.entries.push((String::from_str(name), lines));
                proof {
                    let last = (self.entries@.len() - 1) as int;
                    assert forall|a: int, b: int| 0 <= a < b < self.entries@.len() implies
                        #[trigger] self.entries@[a].0@ != #[trigger] self.entries@[b].0@ by {
                        if b == last {
                            assert(self.entries@[a].0@ == before.entries()[a].0);
                        }
                    }
                    reveal_strlit("");
                    assert(string_views(Seq::<String>::empty()) =~= Seq::<Seq<char>>::empty());
                    self.lemma_lookup(last);
                    assert forall|n: Seq<char>| n != name@ implies #[trigger] self.has(n) == old(self).has(n) by {
                        before.lemma_same_keys(*self, n, last);
                    }
                    assert forall|n: Seq<char>| n != name@ implies #[trigger] self.lines_of(n) == old(self).lines_of(n) by {
                        before.lemma_same_keys(*self, n, last);
                    }
                }
            },
        }
    }

    proof fn lemma_lookup(&self, i: int)
        requires
            self.wf(),
            0 <= i < self.entries@.len(),
        ensures
            self.has(self.entries@[i].0@),
            self.lines_of(self.entries@[i].0@) == string_views(self.entries@[i].1@),
    {
        let name = self.entries@[i].0@;
        assert(self.entries()[i].0 == name);
        let c = choose|k: int| 0 <= k < self.entries().len() && #[trigger] self.entries()[k].0 == name;
        if c != i {
            if c < i {
                assert(self.entries@[c].0@ != self.entries@[i].0@);
            } else {
                assert(self.entries@[i].0@ != self.entries@[c].0@);
            }
        }
    }

    proof fn lemma_same_keys(&self, other: Self, n: Seq<char>, i: int)
        requires
            self.wf(),
            other.wf(),
            0 <= i < other.entries@.len(),
            n != other.entries@[i].0@,
            self.entries@.len() <= other.entries@.len() <= self.entries@.len() + 1,
            other.entries@.len() == self.entries@.len() + 1 ==> i == self.entries@.len(),
            forall|k: int| 0 <= k < self.entries@.len() && k != i ==> #[trigger] other.entries@[k] == self.entries@[k],
            i < self.entries@.len() ==> other.entries@[i].0@ == self.entries@[i].0@,
        ensures
            final_has_same(*self, other, n),
    {
        if self.has(n) {
            let c = choose|k: int| 0 <= k < self.entries().len() && #[trigger] self.entries()[k].0 == n;
            assert(c != i);
            assert(other.entries()[c].0 == n);
            other.lemma_lookup(c);
            self.lemma_lookup(c);
        }
        if other.has(n) {
            let c = choose|k: int| 0 <= k < other.entries().len() && #[trigger] other.entries()[k].0 == n;
            assert(c != i);
            assert(self.entries()[c].0 == n);
        }
    }

    /// A copy of the console lines of `name` (empty when it has no buffer).
    pub fn lines(&self, name: &str) -> (r: Vec<String>)
        requires
            self.wf(),
        ensures
            string_views(r@) == self.lines_of(name@),
    {
        match self.find(name) {
            Some(i) => copy_lines(&self.entries[i].1),
            None => {
                let r: Vec<String> = Vec::new();
                assert(string_views(r@) =~= Seq::<Seq<char>>::empty());
                r
            },
        }
    }

    /// Drops the buffer of `name`. Other buffers are unchanged.
    pub fn remove(&mut self, name: &str)
        requires
            old(self).wf(),
        ensures
            final(self).wf(),
            !final(self).has(name@),
            forall|n: Seq<char>| n != name@ ==> #[trigger] final(self).has(n) == old(self).has(n),
            forall|n: Seq<char>| n != name@ ==> #[trigger] final(self).lines_of(n) == old(self).lines_of(n),
    {
        match self.find(name) {
            Some(i) => {
                let ghost before = *self;
                let _ = self.entries.remove(i);
                proof {
                    assert forall|k: int| 0 <= k < self.entries@.len() implies
                        #[trigger] self.entries@[k] == before.entries@[if k < i { k } else { k + 1 }] by {}
                    assert forall|a: int, b: int| 0 <= a < b < self.entries@.len() implies
                        #[trigger] self.entries@[a].0@ != #[trigger] self.entries@[b].0@ by {
                        let a2 = if a < i { a } else { a + 1 };
                        let b2 = if b < i { b } else { b + 1 };
                        assert(before.entries@[a2].0@ != before.entries@[b2].0@);
                    }
                    if self.has(name@) {
                        let c = choose|k: int| 0 <= k < self.entries().len() && #[trigger] self.entries()[k].0 == name@;
                        let c2 = if c < i { c } else { c + 1 };
                        assert(before.entries@[c2].0@ == name@);
                        if c2 < i {
                            assert(before.entries@[c2].0@ != before.entries@[i as int].0@);
                        } else {
                            assert(before.entries@[i as int].0@ != before.entries@[c2].0@);
                        }
                    }
                    assert forall|n: Seq<char>| n != name@ implies final_has_same(before, *self, n) by {
                        if before.has(n) {
                            let c = choose|k: int| 0 <= k < before.entries().len() && #[trigger] before.entries()[k].0 == n;
                            assert(c != i);
                            let c1 = if c < i { c } else { c - 1 };
                            assert(self.entries()[c1].0 == n);
                            self.lemma_lookup(c1);
                            before.lemma_lookup(c);
                        }
                        if self.has(n) {
                            let c = choose|k: int| 0 <= k < self.entries().len() && #[trigger] self.entries()[k].0 == n;
                            let c2 = if c < i { c } else { c + 1 };
                            assert(before.entries()[c2].0 == n);
                        }
                    }
                    assert forall|n: Seq<char>| n != name@ implies #[trigger] self.has(n) == old(self).has(n) by {
                        assert(final_has_same(before, *self, n));
                    }
                    assert forall|n: Seq<char>| n != name@ implies #[trigger] self.lines_of(n) == old(self).lines_of(n) by {
                        assert(final_has_same(before, *self, n));
                    }
                }
            },
            None => {},
        }
    }
}

/// `a` and `b` hold the same buffer, or the same absence of one, for `n`.
pub open spec fn final_has_same(a: ConsoleBuffers, b: ConsoleBuffers, n: Seq<char>) -> bool {
    b.has(n) == a.has(n) && b.lines_of(n) == a.lines_of(n)
}

/// What the API returns about a VM.
#[derive(Debug, Clone)]
pub struct VmSummary {
    /// VM name.
    pub name: String,
    /// Lifecycle state.
    pub state: VmState,
    /// vCPU count.
    pub cpus: u8,
    /// RAM in MiB.
    pub memory_mb: u32,
    /// Disk size in GiB.
    pub disk_gb: u32,
    /// Kernel command line.
    pub cmdline: Option<String>,
    /// Unix time at which the VM was last started, while it has been started.
    pub started_at: Option<i64>,
    /// Console lines: the stored ones, then those of the running process.
    pub console_lines: Vec<String>,
}

/// A request to create a VM.
#[derive(Debug, Clone)]
pub struct CreateVmRequest {
    /// VM name.
    pub name: String,
    /// vCPU count.
    pub cpus: u8,
    /// RAM in MiB.
    pub memory_mb: u32,
    /// Disk size in GiB.
    pub disk_gb: u32,
    /// Kernel command line.
    pub cmdline: Option<String>,
}

/// vCPU count of a request that gives none.
pub fn default_cpus() -> (n: u8)
    ensures
        n == 2,
{
    2
}

/// RAM (MiB) of a request that gives none.
pub fn default_memory() -> (n: u32)
    ensures
        n == 2048,
{
    2048
}

/// Disk size (GiB) of a request that gives none.
pub fn default_disk() -> (n: u32)
    ensures
        n == 10,
{
    10
}

impl CreateVmRequest {
    /// A request for `name` with the default sizes and no command line.
    pub fn new(name: String) -> (r: Self)
        ensures
            r.name@ == name@,
            r.cpus == 2,
            r.memory_mb == 2048,
            r.disk_gb == 10,
            r.cmdline is None,
    {
        CreateVmRequest {
            name,
            cpus: default_cpus(),
            memory_mb: default_memory(),
            disk_gb: default_disk(),
            cmdline: None,
        }
    }
}

/// What is stored about a VM between runs (`runtime_state.json`).
#[derive(Debug, Clone)]
pub struct RuntimeState {
    /// Lifecycle state.
    pub state: VmState,
    /// Unix time of the last start, 0 when not started.
    pub started_at: i64,
    /// Console lines saved at the last transition.
    pub console_lines: Vec<String>,
}

impl Default for RuntimeState {
    /// A VM that was created and never started.
    fn default() -> (r: Self)
        ensures
            r.state == VmState::Created,
            r.started_at == 0,
            r.console_lines@.len() == 0,
    {
        RuntimeState { state: VmState::Created, started_at: 0, console_lines: Vec::new() }
    }
}

/// Whether `c` may appear in a VM name: an ASCII letter or digit, `-` or `_`.
pub open spec fn name_char_ok(c: char) -> bool {
    ('a' <= c <= 'z') || ('A' <= c <= 'Z') || ('0' <= c <= '9') || c == '-' || c == '_'
}

/// Why `name` cannot name a VM, if it cannot.
pub open spec fn spec_name_error(name: Seq<char>) -> Option<Seq<char>> {
    if name.len() == 0 {
        Some("VM name cannot be empty"@)
    } else if exists|i: int| 0 <= i < name.len() && !name_char_ok(#[trigger] name[i]) {
        Some("VM name may only contain letters, digits, '-' and '_'"@)
    } else {
        None
    }
}

/// Checks a VM name: it must be non-empty and made of ASCII letters, digits, `-` and `_`.
pub fn validate_vm_name(name: &str) -> (r: Result<(), Error>)
    ensures
        match spec_name_error(name@) {
            None => r is Ok,
            Some(m) => r matches Err(Error::Config(e)) && e@ == m,
        },
{
    let n = name.unicode_len();
    if n == 0 {
        return Err(Error::Config(String::from_str("VM name cannot be empty")));
    }
    let mut i: usize = 0;
    while i < n
        invariant
            i <= n,
            n == name@.len(),
            forall|j: int| 0 <= j < i ==> name_char_ok(#[trigger] name@[j]),
        decreases n - i,
    {
        let c = name.get_char(i);
        if !(('a' <= c && c <= 'z') || ('A' <= c && c <= 'Z') || ('0' <= c && c <= '9') || c == '-' || c == '_') {
            return Err(Error::Config(String::from_str("VM name may only contain letters, digits, '-' and '_'")));
        }
        i = i + 1;
    }
    Ok(())
}

/// The error for a VM that does not exist.
pub open spec fn spec_not_found(name: Seq<char>) -> Seq<char> {
    "VM '"@ + name + "' not found"@
}

/// The error for a VM that does not exist.
pub fn not_found(name: &str) -> (e: Error)
    ensures
        e matches Error::Config(m) && m@ == spec_not_found(name@),
{
    let mut m = String::from_str("VM '");
    m.append(name);
    m.append("' not found");
    Error::Config(m)
}

/// The configuration stored for a new VM: the request's sizes, and its command line or
/// the default one.
pub open spec fn spec_vm_from_request(c: VmConfig, req: CreateVmRequest) -> bool {
    &&& c.name@ == req.name@
    &&& c.cpus == req.cpus
    &&& c.memory_mb == req.memory_mb
    &&& c.disk_gb == req.disk_gb
    &&& c.kernel is None
    &&& c.initramfs is None
    &&& c.rootfs is None
    &&& match req.cmdline {
        Some(l) => c.cmdline matches Some(m) && m@ == l@,
        None => c.cmdline matches Some(m) && m@ == CREATE_DEFAULT_CMDLINE@,
    }
    &&& c.shared_dirs@.len() == 0
    &&& c.port_forwards@.len() == 0
    &&& c.audio
}

/// Checks a creation request against the name rules and the existing VMs, and gives the
/// configuration to store.
pub fn plan_create(req: CreateVmRequest, exists: bool) -> (r: Result<VmConfig, Error>)
    ensures
        match spec_name_error(req.name@) {
            Some(m) => r matches Err(Error::Config(e)) && e@ == m,
            None => if exists {
                r matches Err(Error::Config(e)) && e@ == "VM '"@ + req.name@ + "' already exists"@
            } else {
                r matches Ok(c) && spec_vm_from_request(c, req)
            },
        },
{
    match validate_vm_name(req.name.as_str()) {
        Err(e) => {
            return Err(e);
        },
        Ok(()) => {},
    }
    if exists {
        let mut m = String::from_str("VM '");
        m.append(req.name.as_str());
        m.append("' already exists");
        return Err(Error::Config(m));
    }
    let ghost r0 = req;
    let mut spec = VmConfig::new(req.name);
    spec.cpus = req.cpus;
    spec.memory_mb = req.memory_mb;
    spec.disk_gb = req.disk_gb;
    spec.cmdline = match req.cmdline {
        Some(l) => Some(l),
        None => Some(String::from_str(CREATE_DEFAULT_CMDLINE)),
    };
    Ok(spec)
}

/// The console line recorded when a VM is created.
pub open spec fn spec_created_line(c: VmConfig) -> Seq<char> {
    "[vsb] VM '"@ + c.name@ + "' created ("@ + dec_digits(c.cpus as nat) + " vCPU, "@
        + dec_digits(c.memory_mb as nat) + " MB)"@
}

/// The console line recorded when a VM is created.
pub fn created_line(c: &VmConfig) -> (s: String)
    ensures
        s@ == spec_created_line(*c),
{
    let mut s = String::from_str("[vsb] VM '");
    s.append(c.name.as_str());
    s.append("' created (");
    let cpus = to_dec_string(c.cpus as u64);
    s.append(cpus.as_str());
    s.append(" vCPU, ");
    let mem = to_dec_string(c.memory_mb as u64);
    s.append(mem.as_str());
    s.append(" MB)");
    s
}

/// The summary of a VM from its stored configuration, its stored runtime state and the
/// console lines of the running process.
pub fn summarize(spec: VmConfig, runtime: RuntimeState, console: &Vec<String>) -> (s: VmSummary)
    ensures
        s.name@ == spec.name@,
        s.state == runtime.state,
        s.cpus == spec.cpus,
        s.memory_mb == spec.memory_mb,
        s.disk_gb == spec.disk_gb,
        s.cmdline == spec.cmdline,
        s.started_at == (if runtime.started_at > 0 { Some(runtime.started_at) } else { None::<i64> }),
        string_views(s.console_lines@) == string_views(runtime.console_lines@) + string_views(console@),
{
    let mut lines = runtime.console_lines;
    let ghost stored = lines@;
    let mut i: usize = 0;
    while i < console.len()
        invariant
            i <= console@.len(),
            lines@ == stored + console@.take(i as int),
        decreases console@.len() - i,
    {
        lines.push(console[i].clone());
        i = i + 1;
        assert(lines@ =~= stored + console@.take(i as int));
    }
    assert(console@.take(console@.len() as int) =~= console@);
    assert(string_views(lines@) =~= string_views(stored) + string_views(console@));
    VmSummary {
        name: spec.name,
        state: runtime.state,
        cpus: spec.cpus,
        memory_mb: spec.memory_mb,
        disk_gb: spec.disk_gb,
        cmdline: spec.cmdline,
        started_at: if runtime.started_at > 0 { Some(runtime.started_at) } else { None },
        console_lines: lines,
    }
}

/// The start time after a transition into `next` at time `now`: set on entering
/// `Running`, cleared on entering `Stopped`, kept otherwise.
pub open spec fn spec_started_at(old_started_at: i64, next: VmState, now: i64) -> i64 {
    if next == VmState::Running {
        now
    } else if next == VmState::Stopped {
        0
    } else {
        old_started_at
    }
}

/// The runtime state stored after a transition into `next` at Unix time `now`, with the
/// console lines of the running process.
pub fn apply_transition(runtime: RuntimeState, next: VmState, now: i64, console: &Vec<String>) -> (r: RuntimeState)
    ensures
        r.state == next,
        r.started_at == spec_started_at(runtime.started_at, next, now),
        string_views(r.console_lines@) == string_views(console@),
{
    let started_at = if next == VmState::Running {
        now
    } else if next == VmState::Stopped {
        0
    } else {
        runtime.started_at
    };
    RuntimeState { state: next, started_at, console_lines: copy_lines(console) }
}

/// `SystemTime::now().duration_since(UNIX_EPOCH)`: the whole seconds since the Unix
/// epoch, or `None` when the clock reads a time before it. Nothing is promised of the
/// value: it depends on the clock.
#[verifier::external_body]
fn seconds_since_epoch() -> (t: Option<u64>) {
    std::time::SystemTime::now().duration_since(std::time::UNIX_EPOCH).ok().map(|d| d.as_secs())
}

/// The start time recorded from a clock reading (whole seconds since the Unix epoch, if
/// the clock is past it).
pub open spec fn spec_unix_time(secs: Option<u64>) -> i64 {
    match secs {
        Some(s) => if s <= i64::MAX { s as i64 } else { 0 },
        None => 0,
    }
}

/// The start time recorded from a clock reading: the seconds since the Unix epoch, or 0
/// ("no start time") when the clock is before the epoch or past what an `i64` holds.
pub fn unix_time(secs: Option<u64>) -> (t: i64)
    ensures
        t == spec_unix_time(secs),
{
    match secs {
        Some(s) => if s <= i64::MAX as u64 { s as i64 } else { 0 },
        None => 0,
    }
}

/// The runtime state stored after a transition into `next` now: the state is `next`,
/// the start time is read from the clock on entering `Running` (`unix_time` of the
/// reading, never negative, 0 when the clock is before the epoch), 0 on entering
/// `Stopped`, and kept otherwise; the console lines are those given.
pub fn transition_now(runtime: RuntimeState, next: VmState, console: &Vec<String>) -> (r: RuntimeState)
    ensures
        r.state == next,
        next == VmState::Running ==> r.started_at >= 0,
        next == VmState::Stopped ==> r.started_at == 0,
        next != VmState::Stopped && next != VmState::Running ==> r.started_at == runtime.started_at,
        string_views(r.console_lines@) == string_views(console@),
{
    let now = unix_time(seconds_since_epoch());
    apply_transition(runtime, next, now, console)
}

/// The console lines recorded when a VM is started, given the hypervisor probe.
pub open spec fn spec_start_lines(hv: ProbeResult) -> Seq<Seq<char>> {
    if hv.available {
        seq![
            "[vsb] hypervisor probe: "@ + hv.spec_render(),
            "[vsb] VMM boot pipeline ready — use `vsb vm boot` for full WHVP run"@,
            "[guest] (demo) waiting for virtio console / kernel banner…"@,
        ]
    } else {
        seq![
            "[vsb] hypervisor probe: "@ + hv.spec_render(),
            "[vsb] hypervisor unavailable — build with --features whvp (Windows)"@,
        ]
    }
}

/// The console lines recorded when a VM is started (see `spec_start_lines`); the VM
/// then enters `Running`.
pub fn start_lines(hv: &ProbeResult) -> (v: Vec<String>)
    ensures
        string_views(v@) == spec_start_lines(*hv),
{
    let mut first = String::from_str("[vsb] hypervisor probe: ");
    let r = hv.render();
    first.append(r.as_str());
    let mut v: Vec<String> = Vec::new();
    v.push(first);
    if hv.is_ok() {
        v.push(String::from_str("[vsb] VMM boot pipeline ready — use `vsb vm boot` for full WHVP run"));
        v.push(String::from_str("[guest] (demo) waiting for virtio console / kernel banner…"));
    } else {
        v.push(String::from_str("[vsb] hypervisor unavailable — build with --features whvp (Windows)"));
    }
    assert(string_views(v@) =~= spec_start_lines(*hv));
    v
}

/// A lifecycle operation of the API.
#[derive(Debug, Clone, Copy, PartialEq, Eq, Structural)]
pub enum Lifecycle {
    /// `start`.
    Start,
    /// `stop` (also `shutdown`).
    Stop,
    /// The first half of `reboot`.
    RebootDown,
    /// The second half of `reboot`.
    RebootUp,
}

/// The state a lifecycle operation leaves the VM in.
pub open spec fn spec_next_state(op: Lifecycle) -> VmState {
    match op {
        Lifecycle::Start => VmState::Running,
        Lifecycle::Stop => VmState::Stopped,
        Lifecycle::RebootDown => VmState::Starting,
        Lifecycle::RebootUp => VmState::Running,
    }
}

/// The state a lifecycle operation leaves the VM in.
pub fn next_state(op: Lifecycle) -> (s: VmState)
    ensures
        s == spec_next_state(op),
{
    match op {
        Lifecycle::Start => VmState::Running,
        Lifecycle::Stop => VmState::Stopped,
        Lifecycle::RebootDown => VmState::Starting,
        Lifecycle::RebootUp => VmState::Running,
    }
}

/// The console lines a lifecycle operation records (`start` records `start_lines`).
pub open spec fn spec_op_lines(op: Lifecycle, hv: ProbeResult) -> Seq<Seq<char>> {
    match op {
        Lifecycle::Start => spec_start_lines(hv),
        Lifecycle::Stop => seq!["[vsb] VM stopped"@],
        Lifecycle::RebootDown => seq!["[vsb] rebooting…"@],
        Lifecycle::RebootUp => seq!["[vsb] VM running after reboot"@],
    }
}

/// The console lines a lifecycle operation records.
pub fn op_lines(op: Lifecycle, hv: &ProbeResult) -> (v: Vec<String>)
    ensures
        string_views(v@) == spec_op_lines(op, *hv),
{
    match op {
        Lifecycle::Start => start_lines(hv),
        _ => {
            let line = match op {
                Lifecycle::Stop => String::from_str("[vsb] VM stopped"),
                Lifecycle::RebootDown => String::from_str("[vsb] rebooting…"),
                _ => String::from_str("[vsb] VM running after reboot"),
            };
            let mut v: Vec<String> = Vec::new();
            v.push(line);
            assert(string_views(v@) =~= spec_op_lines(op, *hv));
            v
        },
    }
}

/// Entering `Running` records the time of the transition; entering `Stopped` clears it;
/// so a stopped VM shows no start time and a running one shows when it was started.
pub proof fn law_started_at(old_started_at: i64, op: Lifecycle, now: i64)
    requires
        now > 0,
    ensures
        spec_next_state(op) == VmState::Running ==> spec_started_at(old_started_at, spec_next_state(op), now) == now,
        spec_next_state(op) == VmState::Stopped ==> spec_started_at(old_started_at, spec_next_state(op), now) == 0,
        op == Lifecycle::Stop ==> spec_started_at(old_started_at, spec_next_state(op), now) == 0,
{
}

/// A console buffer never holds more than `CONSOLE_CAPACITY` lines, and the line just
/// pushed is always its last one.
pub proof fn law_console_bounded(lines: Seq<Seq<char>>, line: Seq<char>)
    ensures
        keep_last(lines.push(line), CONSOLE_CAPACITY as nat).len() <= CONSOLE_CAPACITY,
        keep_last(lines.push(line), CONSOLE_CAPACITY as nat).last() == line,
        lines.len() < CONSOLE_CAPACITY ==> keep_last(lines.push(line), CONSOLE_CAPACITY as nat) == lines.push(line),
{
}

/// Whether name `a` comes strictly before name `b`: character by character, a proper
/// prefix first (the order of `String`, since UTF-8 keeps the order of code points).
pub open spec fn name_lt(a: Seq<char>, b: Seq<char>) -> bool
    decreases a.len(),
{
    if a.len() == 0 {
        b.len() > 0
    } else if b.len() == 0 {
        false
    } else if a[0] != b[0] {
        (a[0] as u32) < (b[0] as u32)
    } else {
        name_lt(a.drop_first(), b.drop_first())
    }
}

/// Whether the summaries are in name order.
pub open spec fn sorted_by_name(v: Seq<VmSummary>) -> bool {
    forall|i: int, j: int| 0 <= i < j < v.len() ==> !name_lt(#[trigger] v[j].name@, #[trigger] v[i].name@)
}

proof fn lemma_name_lt_transitive(a: Seq<char>, b: Seq<char>, c: Seq<char>)
    requires
        name_lt(a, b),
        name_lt(b, c),
    ensures
        name_lt(a, c),
    decreases a.len(),
{
    if a.len() > 0 && b.len() > 0 && c.len() > 0 && a[0] == b[0] && b[0] == c[0] {
        lemma_name_lt_transitive(a.drop_first(), b.drop_first(), c.drop_first());
    }
}

proof fn lemma_name_lt_irreflexive(a: Seq<char>)
    ensures
        !name_lt(a, a),
    decreases a.len(),
{
    if a.len() > 0 {
        lemma_name_lt_irreflexive(a.drop_first());
    }
}

proof fn lemma_name_lt_skip(a: Seq<char>, b: Seq<char>, i: int)
    requires
        0 <= i <= a.len(),
        i <= b.len(),
        a.subrange(0, i) == b.subrange(0, i),
    ensures
        name_lt(a, b) == name_lt(a.skip(i), b.skip(i)),
    decreases i,
{
    if i > 0 {
        assert(a[0] == a.subrange(0, i)[0]);
        assert(b[0] == b.subrange(0, i)[0]);
        assert(a.drop_first().subrange(0, i - 1) =~= a.subrange(0, i).drop_first());
        assert(b.drop_first().subrange(0, i - 1) =~= b.subrange(0, i).drop_first());
        lemma_name_lt_skip(a.drop_first(), b.drop_first(), i - 1);
        assert(a.drop_first().skip(i - 1) =~= a.skip(i));
        assert(b.drop_first().skip(i - 1) =~= b.skip(i));
    } else {
        assert(a.skip(0) =~= a);
        assert(b.skip(0) =~= b);
    }
}

/// Whether name `a` comes strictly before name `b` (see `name_lt`).
pub fn name_less(a: &str, b: &str) -> (r: bool)
    ensures
        r == name_lt(a@, b@),
{
    let x = crate::text::str_to_chars(a);
    let y = crate::text::str_to_chars(b);
    let mut i: usize = 0;
    while i < x.len() && i < y.len() && x[i] == y[i]
        invariant
            i <= x@.len(),
            i <= y@.len(),
            x@.subrange(0, i as int) == y@.subrange(0, i as int),
        decreases x@.len() - i,
    {
        i = i + 1;
        assert(x@.subrange(0, i as int) =~= x@.subrange(0, i - 1).push(x@[i - 1]));
        assert(y@.subrange(0, i as int) =~= y@.subrange(0, i - 1).push(y@[i - 1]));
    }
    proof {
        lemma_name_lt_skip(x@, y@, i as int);
        if i < x@.len() {
            assert(x@.skip(i as int)[0] == x@[i as int]);
        }
        if i < y@.len() {
            assert(y@.skip(i as int)[0] == y@[i as int]);
        }
    }
    if i == x.len() {
        i < y.len()
    } else if i == y.len() {
        false
    } else {
        (x[i] as u32) < (y[i] as u32)
    }
}

/// The summaries in name order (equal names keep their order); the list holds the same
/// summaries as before.
pub fn sort_by_name(v: Vec<VmSummary>) -> (r: Vec<VmSummary>)
    ensures
        r@.to_multiset() == v@.to_multiset(),
        sorted_by_name(r@),
{
    broadcast use vstd::seq_lib::group_to_multiset_ensures, vstd::multiset::group_multiset_axioms;
    let mut out: Vec<VmSummary> = Vec::new();
    let mut rest = v;
    let ghost orig = rest@;
    proof {
        assert(out@.to_multiset() =~= vstd::multiset::Multiset::empty());
        assert(out@.to_multiset().add(rest@.to_multiset()) =~= orig.to_multiset());
    }
    while rest.len() > 0
        invariant
            sorted_by_name(out@),
            out@.to_multiset().add(rest@.to_multiset()) == orig.to_multiset(),
        decreases rest@.len(),
    {
        let ghost rb = rest@;
        let x = rest.remove(rest.len() - 1);
        proof {
            assert(rb =~= rest@.push(x));
            vstd::seq_lib::to_multiset_build(rest@, x);
        }
        let mut p: usize = 0;
        while p < out.len() && !name_less(x.name.as_str(), out[p].name.as_str())
            invariant
                p <= out@.len(),
                forall|k: int| 0 <= k < p ==> !name_lt(x.name@, #[trigger] out@[k].name@),
            decreases out@.len() - p,
        {
            p = p + 1;
        }
        let ghost prev = out@;
        out.insert(p, x);
        proof {
            assert forall|i: int, j: int| 0 <= i < j < out@.len() implies !name_lt(#[trigger] out@[j].name@, #[trigger] out@[i].name@) by {
                if j < p {
                    assert(out@[i] == prev[i] && out@[j] == prev[j]);
                } else if j == p {
                    assert(out@[i] == prev[i]);
                } else if i == p {
                    assert(out@[j] == prev[j - 1]);
                    assert(name_lt(x.name@, prev[p as int].name@));
                    if p < j - 1 {
                        assert(!name_lt(prev[j - 1].name@, prev[p as int].name@));
                    } else {
                        lemma_name_lt_irreflexive(prev[p as int].name@);
                    }
                    if name_lt(prev[j - 1].name@, x.name@) {
                        lemma_name_lt_transitive(prev[j - 1].name@, x.name@, prev[p as int].name@);
                        if p == j - 1 {
                            lemma_name_lt_irreflexive(prev[p as int].name@);
                        }
                    }
                } else if i < p {
                    assert(out@[i] == prev[i] && out@[j] == prev[j - 1]);
                } else {
                    assert(out@[i] == prev[i - 1] && out@[j] == prev[j - 1]);
                }
            }
            assert(out@ == prev.insert(p as int, x));
            vstd::seq_lib::to_multiset_insert(prev, p as int, x);
            assert(out@.to_multiset().add(rest@.to_multiset()) =~= orig.to_multiset());
        }
    }
    proof {
        assert(rest@.to_multiset() =~= vstd::multiset::Multiset::empty());
        assert(out@.to_multiset().add(rest@.to_multiset()) =~= out@.to_multiset());
    }
    out
}

} // verus!
