//! The `ping` of macOS.

use vstd::prelude::*;
use vstd::string::*;

use crate::capture::{pong_of, time_capture};
use crate::model::PingResult;
use crate::parser::{Parser, Pinger};
use crate::text::{begins_with, chars_of, starts_with, texts};

verus! {

/// Finds the time of an answer: `time=`, a figure of digits and points,
/// white space, and `ms`. Letter case counts.
pub const MACOS_PATTERN: &'static str = r"time=(?:(?P<time>[0-9\.]+)\s+ms)";

/// `-i0.2` sends a probe every fifth of a second.
pub open spec fn macos_arguments(target: Seq<char>) -> Seq<Seq<char>> {
    seq!["-i0.2"@, target]
}

/// The banner, which begins with `PING `, reports nothing; a line that
/// begins with `Request timeout` is a timeout; any other line is an
/// answer if it holds a time, and reports nothing if it does not.
pub open spec fn macos_classification(line: Seq<char>) -> Option<PingResult> {
    if begins_with(line, "PING "@) {
        None
    } else if begins_with(line, "Request timeout"@) {
        Some(PingResult::Timeout)
    } else {
        pong_of(time_capture(MACOS_PATTERN@, line))
    }
}

/// Builds the arguments of the macOS `ping`.
pub struct MacOSPinger {}

impl Default for MacOSPinger {
    fn default() -> (r: Self) {
        MacOSPinger {  }
    }
}

impl Pinger for MacOSPinger {
    open spec fn arguments(&self, target: Seq<char>) -> Seq<Seq<char>> {
        macos_arguments(target)
    }

    fn ping_args(&self, target: String) -> (r: Vec<String>) {
        let mut args: Vec<String> = Vec::new();
        args.push(String::from_str("-i0.2"));
        args.push(target);
        args
    }
}

/// Reads the output of the macOS `ping`.
pub struct MacOSParser {}

impl Default for MacOSParser {
    fn default() -> (r: Self) {
        MacOSParser {  }
    }
}

impl Parser for MacOSParser {
    open spec fn classification(&self, line: Seq<char>) -> Option<PingResult> {
        macos_classification(line)
    }

    fn parse(&self, line: String) -> (r: Option<PingResult>) {
        let chars = chars_of(line.as_str());
        if starts_with(&chars, &chars_of("PING ")) {
            return None;
        }
        if starts_with(&chars, &chars_of("Request timeout")) {
            return Some(PingResult::Timeout);
        }
        self.extract_regex(MACOS_PATTERN, line)
    }
}

} // verus!
