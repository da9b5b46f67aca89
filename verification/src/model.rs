//! What a probe reports, and how a probe can fail to start.

use vstd::prelude::*;
use vstd::string::*;

verus! {

/// A round-trip time, in whole microseconds.
#[derive(Clone, Copy, Debug, PartialEq, Eq, Structural)]
pub struct Latency {
    pub micros: u64,
}

impl Latency {
    /// The latency of `micros` microseconds.
    pub fn from_micros(micros: u64) -> (r: Latency)
        ensures
            r.micros == micros,
    {
        Latency { micros }
    }

    /// The latency in microseconds.
    pub fn as_micros(&self) -> (r: u64)
        ensures
            r == self.micros,
    {
        self.micros
    }
}

/// The outcome of one probe.
#[derive(Clone, Copy, Debug, PartialEq, Eq, Structural)]
pub enum PingResult {
    /// An answer came back after the given time.
    Pong(Latency),
    /// No answer came back.
    Timeout,
}

/// Why no probe could be started.
#[derive(Debug, PartialEq, Eq)]
pub enum PingError {
    /// The operating system of the given name has no known `ping` grammar.
    UnsupportedOS(String),
    /// The given target is no usable host name.
    HostnameError(String),
}

impl PingError {
    /// The text that `message` gives for this error.
    pub open spec fn message_text(&self) -> Seq<char> {
        match self {
            PingError::UnsupportedOS(name) => "Unsupported OS "@ + name@,
            PingError::HostnameError(target) => "Invalid or unresolvable hostname "@ + target@,
        }
    }

    /// A sentence that names the error and what it is about.
    pub fn message(&self) -> (r: String)
        ensures
            r@ == self.message_text(),
    {
        match self {
            PingError::UnsupportedOS(name) => String::from_str("Unsupported OS ").concat(
                name.as_str(),
            ),
            PingError::HostnameError(target) => String::from_str(
                "Invalid or unresolvable hostname ",
            ).concat(target.as_str()),
        }
    }
}

} // verus!
