//! The `ping` of Android.

use vstd::prelude::*;
use vstd::string::*;

use crate::capture::{pong_of, time_capture};
use crate::model::PingResult;
use crate::parser::{Parser, Pinger};
use crate::text::{begins_with, chars_of, starts_with, texts};

verus! {

/// Finds the time of an answer, in any letter case: `time=`, a decimal
/// figure, and `ms` after any number of spaces.
pub const ANDROID_PATTERN: &'static str = r"(?i-u)time=(?P<time>\d+(?:\.\d+)?) *ms";

/// `-i0.2` sends a probe every fifth of a second.
pub open spec fn android_arguments(target: Seq<char>) -> Seq<Seq<char>> {
    seq!["-i0.2"@, target]
}

/// A line that begins with `64 bytes from` is an answer, if it holds a
/// time; one that begins with `no answer yet` is a timeout; any other
/// line reports nothing.
pub open spec fn android_classification(line: Seq<char>) -> Option<PingResult> {
    if begins_with(line, "64 bytes from"@) {
        pong_of(time_capture(ANDROID_PATTERN@, line))
    } else if begins_with(line, "no answer yet"@) {
        Some(PingResult::Timeout)
    } else {
        None
    }
}

/// Builds the arguments of the Android `ping`.
pub struct AndroidPinger {}

impl Default for AndroidPinger {
    fn default() -> (r: Self) {
        AndroidPinger {  }
    }
}

impl Pinger for AndroidPinger {
    open spec fn arguments(&self, target: Seq<char>) -> Seq<Seq<char>> {
        android_arguments(target)
    }

    fn ping_args(&self, target: String) -> (r: Vec<String>) {
        let mut args: Vec<String> = Vec::new();
        args.push(String::from_str("-i0.2"));
        args.push(target);
        args
    }
}

/// Reads the output of the Android `ping`.
pub struct AndroidParser {}

impl Default for AndroidParser {
    fn default() -> (r: Self) {
        AndroidParser {  }
    }
}

impl Parser for AndroidParser {
    open spec fn classification(&self, line: Seq<char>) -> Option<PingResult> {
        android_classification(line)
    }

    fn parse(&self, line: String) -> (r: Option<PingResult>) {
        let chars = chars_of(line.as_str());
        if starts_with(&chars, &chars_of("64 bytes from")) {
            self.extract_regex(ANDROID_PATTERN, line)
        } else if starts_with(&chars, &chars_of("no answer yet")) {
            Some(PingResult::Timeout)
        } else {
            None
        }
    }
}

} // verus!
