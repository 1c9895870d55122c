//! The host side of a reduced QEMU guest-agent protocol over the VirtIO serial
//! channel.
//!
//! 1. A `0xFF` byte resets the guest's input buffer.
//! 2. `guest-sync-delimited` is sent with a fresh id, and the guest echoes the id.
//! 3. Commands are JSON lines; each answer is one JSON line, `{"return": ...}` or
//!    `{"error": {...}}`, possibly preceded by `0xFF` delimiters.
//!
//! JSON encoding and decoding is the caller's part; framing the bytes and judging
//! the decoded answers is done here.
use vstd::prelude::*;
use vstd::string::*;


use crate::error::Error;
use crate::text::dec_digits;
use crate::text::to_dec_string;

verus! {

/// The byte that resets the guest's input buffer and delimits answers.
pub const RESET_BYTE: u8 = 0xFF;

/// The byte that ends a command or an answer.
pub const NEWLINE: u8 = 0x0A;

/// Sync id used when the clock cannot be read.
pub const FALLBACK_SYNC_ID: u64 = 12345;

/// An error answer of the guest agent.
#[derive(Debug, Clone)]
pub struct GaError {
    /// Error class.
    pub class: String,
    /// Description.
    pub desc: String,
}

/// A decoded answer of the guest agent, with the `return` value already converted.
#[derive(Debug, Clone)]
pub enum GaReply<T> {
    /// `{"return": value}`.
    Return(T),
    /// `{"error": {...}}`.
    Error(GaError),
}

/// The error reported for an error answer to a command.
pub open spec fn spec_command_error(e: GaError) -> Seq<char> {
    "["@ + e.class@ + "] "@ + e.desc@
}

impl<T> GaReply<T> {
    /// The returned value, or the agent's error as an IPC error `[class] desc`.
    pub fn into_result(self) -> (r: Result<T, Error>)
        ensures
            match self {
                GaReply::Return(v) => r == Ok::<T, Error>(v),
                GaReply::Error(e) => r matches Err(Error::Ipc(m)) && m@ == spec_command_error(e),
            },
    {
        match self {
            GaReply::Return(v) => Ok(v),
            GaReply::Error(e) => {
                let mut m = String::from_str("[");
                m.append(e.class.as_str());
                m.append("] ");
                m.append(e.desc.as_str());
                Err(Error::Ipc(m))
            },
        }
    }
}

/// The error reported when the echoed sync id differs from the one sent.
pub open spec fn spec_sync_mismatch(expected: u64, got: u64) -> Seq<char> {
    "sync ID mismatch: expected "@ + dec_digits(expected as nat) + " got "@ + dec_digits(got as nat)
}

/// Judges the answer to `guest-sync-delimited`: the returned number (0 when the value is
/// not a number) must be the id that was sent.
pub fn check_sync(expected: u64, reply: GaReply<Option<u64>>) -> (r: Result<(), Error>)
    ensures
        match reply {
            GaReply::Return(v) => {
                let got = match v { Some(n) => n, None => 0 };
                if got == expected {
                    r is Ok
                } else {
                    r matches Err(Error::Ipc(m)) && m@ == spec_sync_mismatch(expected, got)
                }
            },
            GaReply::Error(e) => r matches Err(Error::Ipc(m)) && m@ == "sync error: "@ + e.desc@,
        },
{
    match reply {
        GaReply::Return(v) => {
            let got = match v {
                Some(n) => n,
                None => 0,
            };
            if got != expected {
                let mut m = String::from_str("sync ID mismatch: expected ");
                let e = to_dec_string(expected);
                m.append(e.as_str());
                m.append(" got ");
                let g = to_dec_string(got);
                m.append(g.as_str());
                return Err(Error::Ipc(m));
            }
            Ok(())
        },
        GaReply::Error(e) => {
            let mut m = String::from_str("sync error: ");
            m.append(e.desc.as_str());
            Err(Error::Ipc(m))
        },
    }
}

/// The bytes sent for the sync command: a reset byte, the command's JSON, a newline.
pub fn sync_frame(command_json: &[u8]) -> (v: Vec<u8>)
    ensures
        v@ == seq![RESET_BYTE] + command_json@ + seq![NEWLINE],
{
    let mut v: Vec<u8> = Vec::new();
    v.push(RESET_BYTE);
    let mut i: usize = 0;
    while i < command_json.len()
        invariant
            i <= command_json@.len(),
            v@ == seq![RESET_BYTE] + command_json@.take(i as int),
        decreases command_json@.len() - i,
    {
        v.push(command_json[i]);
        i = i + 1;
        assert(v@ =~= seq![RESET_BYTE] + command_json@.take(i as int));
    }
    v.push(NEWLINE);
    assert(command_json@.take(command_json@.len() as int) =~= command_json@);
    assert(v@ =~= seq![RESET_BYTE] + command_json@ + seq![NEWLINE]);
    v
}

/// The bytes sent for a command: its JSON and a newline.
pub fn command_frame(command_json: &[u8]) -> (v: Vec<u8>)
    ensures
        v@ == command_json@ + seq![NEWLINE],
{
    let mut v: Vec<u8> = Vec::new();
    let mut i: usize = 0;
    while i < command_json.len()
        invariant
            i <= command_json@.len(),
            v@ == command_json@.take(i as int),
        decreases command_json@.len() - i,
    {
        v.push(command_json[i]);
        i = i + 1;
        assert(v@ =~= command_json@.take(i as int));
    }
    v.push(NEWLINE);
    assert(command_json@.take(command_json@.len() as int) =~= command_json@);
    v
}

/// One byte read from the guest: a reset byte drops what was collected, a newline ends
/// the answer, anything else is collected.
pub open spec fn spec_feed(buf: Seq<u8>, b: u8) -> (Seq<u8>, Option<Seq<u8>>) {
    if b == RESET_BYTE {
        (Seq::empty(), None)
    } else if b == NEWLINE {
        (Seq::empty(), Some(buf))
    } else {
        (buf.push(b), None)
    }
}

/// The first answer completed when `bytes` are read after `buf` was collected.
pub open spec fn spec_first_answer(buf: Seq<u8>, bytes: Seq<u8>) -> Option<Seq<u8>>
    decreases bytes.len(),
{
    if bytes.len() == 0 {
        None
    } else {
        let (next, done) = spec_feed(buf, bytes[0]);
        match done {
            Some(line) => Some(line),
            None => spec_first_answer(next, bytes.drop_first()),
        }
    }
}

/// Collects the bytes of one answer as they are read.
#[derive(Debug)]
pub struct AnswerReader {
    buf: Vec<u8>,
}

impl AnswerReader {
    /// The bytes collected so far.
    pub closed spec fn collected(&self) -> Seq<u8> {
        self.buf@
    }

    /// A reader that has collected nothing.
    pub fn new() -> (r: Self)
        ensures
            r.collected() == Seq::<u8>::empty(),
    {
        AnswerReader { buf: Vec::new() }
    }

    /// Takes one byte; returns the answer's bytes when `b` ends it (see `spec_feed`).
    pub fn feed(&mut self, b: u8) -> (r: Option<Vec<u8>>)
        ensures
            (final(self).collected(), match r { Some(v) => Some(v@), None => None::<Seq<u8>> })
                == spec_feed(old(self).collected(), b),
    {
        if b == RESET_BYTE {
            self.buf = Vec::new();
            None
        } else if b == NEWLINE {
            let mut line: Vec<u8> = Vec::new();
            core::mem::swap(&mut line, &mut self.buf);
            Some(line)
        } else {
            self.buf.push(b);
            None
        }
    }
}

/// An answer framed by a reset byte and a newline is read back exactly, whatever was
/// collected before.
pub proof fn law_answer_framing(before: Seq<u8>, answer: Seq<u8>)
    requires
        forall|i: int| 0 <= i < answer.len() ==> #[trigger] answer[i] != RESET_BYTE && answer[i] != NEWLINE,
    ensures
        spec_first_answer(before, seq![RESET_BYTE] + answer + seq![NEWLINE]) == Some(answer),
{
    let bytes = seq![RESET_BYTE] + answer + seq![NEWLINE];
    assert(bytes.drop_first() =~= answer + seq![NEWLINE]);
    lemma_collect(Seq::empty(), answer);
    assert(Seq::<u8>::empty() + answer =~= answer);
}

proof fn lemma_collect(buf: Seq<u8>, s: Seq<u8>)
    requires
        forall|i: int| 0 <= i < s.len() ==> #[trigger] s[i] != RESET_BYTE && s[i] != NEWLINE,
    ensures
        spec_first_answer(buf, s + seq![NEWLINE]) == Some(buf + s),
    decreases s.len(),
{
    if s.len() == 0 {
        assert(s + seq![NEWLINE] =~= seq![NEWLINE]);
        assert(buf + s =~= buf);
    } else {
        let t = s + seq![NEWLINE];
        assert(t[0] == s[0]);
        assert(t.drop_first() =~= s.drop_first() + seq![NEWLINE]);
        assert forall|i: int| 0 <= i < s.drop_first().len() implies #[trigger] s.drop_first()[i] != RESET_BYTE
            && s.drop_first()[i] != NEWLINE by {
            assert(s.drop_first()[i] == s[i + 1]);
        }
        lemma_collect(buf.push(s[0]), s.drop_first());
        assert(buf.push(s[0]) + s.drop_first() =~= buf + s);
    }
}

/// The host side of the guest agent of one VM.
#[derive(Debug)]
pub struct GuestAgentClient {
    /// The serial channel's host-side path.
    pub serial_path: String,
    /// How long to wait for the connection and for each answer, in seconds.
    pub timeout_secs: u64,
}

/// The default wait of a guest-agent client, in seconds.
pub const GA_DEFAULT_TIMEOUT_SECS: u64 = 30;

impl GuestAgentClient {
    /// A client for the channel at `serial_path`, waiting up to 30 seconds.
    pub fn new(serial_path: String) -> (c: Self)
        ensures
            c.serial_path@ == serial_path@,
            c.timeout_secs == GA_DEFAULT_TIMEOUT_SECS,
    {
        GuestAgentClient { serial_path, timeout_secs: GA_DEFAULT_TIMEOUT_SECS }
    }

    /// The same client waiting `secs` seconds.
    pub fn with_timeout(self, secs: u64) -> (c: Self)
        ensures
            c.serial_path@ == self.serial_path@,
            c.timeout_secs == secs,
    {
        GuestAgentClient { serial_path: self.serial_path, timeout_secs: secs }
    }
}

/// The sync id: the clock's nanoseconds since the Unix epoch, truncated to 64 bits, or
/// `FALLBACK_SYNC_ID` when the clock is before the epoch.
pub fn rand_sync_id(nanos_since_epoch: Option<u128>) -> (id: u64)
    ensures
        id == match nanos_since_epoch {
            Some(n) => n as u64,
            None => FALLBACK_SYNC_ID,
        },
{
    match nanos_since_epoch {
        Some(n) => n as u64,
        None => FALLBACK_SYNC_ID,
    }
}

} // verus!
