//! The crate-wide error type.
use vstd::prelude::*;
use vstd::string::*;

verus! {

/// Errors reported by the library. Every variant carries a human-readable message.
#[derive(Debug)]
pub enum Error {
    /// Configuration error.
    Config(String),
    /// Command-line error.
    Cli(String),
    /// Hypervisor / VMM error.
    Vmm(String),
    /// Device error.
    Device(String),
    /// Disk image error.
    Image(String),
    /// Network error.
    Network(String),
    /// Agent error.
    Agent(String),
    /// Crawler error.
    Crawler(String),
    /// Summarizer error.
    Summarizer(String),
    /// Host <-> guest channel error.
    Ipc(String),
    /// I/O error (its rendered message).
    Io(String),
    /// Serialization error (its rendered message).
    Serde(String),
    /// Any other error.
    Other(String),
}

impl Error {
    /// The message carried by the error, as a sequence of characters.
    pub open spec fn spec_message(&self) -> Seq<char> {
        match self {
            Error::Config(m) => m@,
            Error::Cli(m) => m@,
            Error::Vmm(m) => m@,
            Error::Device(m) => m@,
            Error::Image(m) => m@,
            Error::Network(m) => m@,
            Error::Agent(m) => m@,
            Error::Crawler(m) => m@,
            Error::Summarizer(m) => m@,
            Error::Ipc(m) => m@,
            Error::Io(m) => m@,
            Error::Serde(m) => m@,
            Error::Other(m) => m@,
        }
    }

    /// The text prefix that the error's rendering puts before the message.
    pub open spec fn spec_prefix(&self) -> Seq<char> {
        match self {
            Error::Config(_) => "config error: "@,
            Error::Cli(_) => "cli error: "@,
            Error::Vmm(_) => "vmm error: "@,
            Error::Device(_) => "device error: "@,
            Error::Image(_) => "image error: "@,
            Error::Network(_) => "network error: "@,
            Error::Agent(_) => "agent error: "@,
            Error::Crawler(_) => "crawler error: "@,
            Error::Summarizer(_) => "summarizer error: "@,
            Error::Ipc(_) => "ipc error: "@,
            Error::Io(_) => "io error: "@,
            Error::Serde(_) => "serialization error: "@,
            Error::Other(_) => ""@,
        }
    }

    /// The error's text: its prefix, then its message (what `to_string` shows).
    pub fn render(&self) -> (s: String)
        ensures
            s@ == self.spec_prefix() + self.spec_message(),
    {
        let (prefix, m) = match self {
            Error::Config(m) => ("config error: ", m),
            Error::Cli(m) => ("cli error: ", m),
            Error::Vmm(m) => ("vmm error: ", m),
            Error::Device(m) => ("device error: ", m),
            Error::Image(m) => ("image error: ", m),
            Error::Network(m) => ("network error: ", m),
            Error::Agent(m) => ("agent error: ", m),
            Error::Crawler(m) => ("crawler error: ", m),
            Error::Summarizer(m) => ("summarizer error: ", m),
            Error::Ipc(m) => ("ipc error: ", m),
            Error::Io(m) => ("io error: ", m),
            Error::Serde(m) => ("serialization error: ", m),
            Error::Other(m) => ("", m),
        };
        let mut s = String::from_str(prefix);
        s.append(m.as_str());
        s
    }
}

} // verus!
