//! The `ping` of Windows.

use vstd::prelude::*;

use crate::capture::{pong_of, time_capture};
use crate::model::PingResult;
use crate::parser::{plain_arguments, Parser, Pinger};
use crate::text::{chars_of, contains, occurs_in, texts};

verus! {

/// Finds the time of an answer, in any letter case: `time=`, a decimal
/// figure, and `ms` right after it.
pub const WINDOWS_PATTERN: &'static str = r"(?ix-u)time=(?P<time>\d+(?:\.\d+)?)ms";

/// A line that holds `timed out` or `failure` is a timeout; any other
/// line is an answer if it holds a time, and reports nothing if it does
/// not.
pub open spec fn windows_classification(line: Seq<char>) -> Option<PingResult> {
    if occurs_in(line, "timed out"@) || occurs_in(line, "failure"@) {
        Some(PingResult::Timeout)
    } else {
        pong_of(time_capture(WINDOWS_PATTERN@, line))
    }
}

/// The Windows tool probes once a second by itself and takes no flags.
pub struct WindowsPinger {}

impl Default for WindowsPinger {
    fn default() -> (r: Self) {
        WindowsPinger {  }
    }
}

impl Pinger for WindowsPinger {
    open spec fn arguments(&self, target: Seq<char>) -> Seq<Seq<char>> {
        plain_arguments(target)
    }

    fn ping_args(&self, target: String) -> (r: Vec<String>) {
        let mut args: Vec<String> = Vec::new();
        args.push(target);
        args
    }
}

/// Reads the output of the Windows `ping`.
pub struct WindowsParser {}

impl Default for WindowsParser {
    fn default() -> (r: Self) {
        WindowsParser {  }
    }
}

impl Parser for WindowsParser {
    open spec fn classification(&self, line: Seq<char>) -> Option<PingResult> {
        windows_classification(line)
    }

    fn parse(&self, line: String) -> (r: Option<PingResult>) {
        let chars = chars_of(line.as_str());
        if contains(&chars, &chars_of("timed out")) || contains(&chars, &chars_of("failure")) {
            return Some(PingResult::Timeout);
        }
        self.extract_regex(WINDOWS_PATTERN, line)
    }
}

} // verus!
