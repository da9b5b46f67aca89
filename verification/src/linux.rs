//! The `ping` of Linux distributions (iputils).

use vstd::prelude::*;
use vstd::string::*;

use crate::capture::{pong_of, time_capture};
use crate::model::PingResult;
use crate::parser::{Parser, Pinger};
use crate::text::{begins_with, chars_of, starts_with, texts};

verus! {

/// Finds the time of an answer, in any letter case: `time=`, a decimal
/// figure, and `ms` after any number of spaces.
pub const LINUX_PATTERN: &'static str = r"(?i-u)time=(?P<time>\d+(?:\.\d+)?) *ms";

/// `-O` makes the tool report each probe that got no answer in time, and
/// `-i0.2` sends a probe every fifth of a second.
pub open spec fn linux_arguments(target: Seq<char>) -> Seq<Seq<char>> {
    seq!["-O"@, "-i0.2"@, target]
}

/// A line that begins with `64 bytes from` is an answer, if it holds a
/// time; one that begins with `no answer yet` is a timeout; any other
/// line reports nothing.
pub open spec fn linux_classification(line: Seq<char>) -> Option<PingResult> {
    if begins_with(line, "64 bytes from"@) {
        pong_of(time_capture(LINUX_PATTERN@, line))
    } else if begins_with(line, "no answer yet"@) {
        Some(PingResult::Timeout)
    } else {
        None
    }
}

/// Builds the arguments of the iputils `ping`.
pub struct LinuxPinger {}

impl Default for LinuxPinger {
    fn default() -> (r: Self) {
        LinuxPinger {  }
    }
}

impl Pinger for LinuxPinger {
    open spec fn arguments(&self, target: Seq<char>) -> Seq<Seq<char>> {
        linux_arguments(target)
    }

    fn ping_args(&self, target: String) -> (r: Vec<String>) {
        let mut args: Vec<String> = Vec::new();
        args.push(String::from_str("-O"));
        args.push(String::from_str("-i0.2"));
        args.push(target);
        args
    }
}

/// Reads the output of the iputils `ping`.
pub struct LinuxParser {}

impl Default for LinuxParser {
    fn default() -> (r: Self) {
        LinuxParser {  }
    }
}

impl Parser for LinuxParser {
    open spec fn classification(&self, line: Seq<char>) -> Option<PingResult> {
        linux_classification(line)
    }

    fn parse(&self, line: String) -> (r: Option<PingResult>) {
        let chars = chars_of(line.as_str());
        if starts_with(&chars, &chars_of("64 bytes from")) {
            self.extract_regex(LINUX_PATTERN, line)
        } else if starts_with(&chars, &chars_of("no answer yet")) {
            Some(PingResult::Timeout)
        } else {
            None
        }
    }
}

} // verus!
