//! The latency figure of a line, found by a regular expression.

use regex::Regex;
use vstd::prelude::*;

use crate::decimal::{millis_text_micros_saturated, parse_millis};
use crate::model::{Latency, PingResult};
use crate::text::chars_of;

verus! {

/// The name of the group that captures the millisecond figure.
pub const TIME_GROUP: &'static str = "time";

/// What the group named `group` holds in the leftmost match of the
/// regular expression `pattern` in `line`. It is `None` where `pattern`
/// is no regular expression, where nothing in `line` matches it, where it
/// has no group of that name, and where the match leaves the group out.
pub uninterp spec fn named_capture(pattern: Seq<char>, group: Seq<char>, line: Seq<char>) -> Option<
    Seq<char>,
>;

/// What the group `time` of `pattern` captures in `line`.
pub open spec fn time_capture(pattern: Seq<char>, line: Seq<char>) -> Option<Seq<char>> {
    named_capture(pattern, TIME_GROUP@, line)
}

/// Searches `line` with `regex::Regex::captures`, on the expression that
/// `regex::Regex::new` compiles from `pattern`, and hands out the text of
/// the group named `group`, as `regex::Captures::name` gives it.
///
/// The contract only names the outcome: it claims that the same pattern,
/// group and line always give the same text, and nothing about what that
/// text is.
#[verifier::external_body]
fn capture_named(pattern: &str, group: &str, line: &str) -> (r: Option<String>)
    ensures
        capture_text(r) == named_capture(pattern@, group@, line@),
{
    let re = Regex::new(pattern).ok()?;
    let caps = re.captures(line)?;
    match caps.name(group) {
        Some(m) => Some(m.as_str().to_string()),
        None => None,
    }
}

/// The characters of a captured text.
pub open spec fn capture_text(capture: Option<String>) -> Option<Seq<char>> {
    match capture {
        Some(t) => Some(t@),
        None => None,
    }
}

/// The result that a captured millisecond figure stands for: an answer
/// with the figure's microseconds, rounded down and held to the range of
/// a `u64`. No capture, or one that is no figure, stands for nothing.
pub open spec fn pong_of(capture: Option<Seq<char>>) -> Option<PingResult> {
    match capture {
        Some(t) => match millis_text_micros_saturated(t) {
            Some(micros) => Some(PingResult::Pong(Latency { micros })),
            None => None,
        },
        None => None,
    }
}

/// Turns a captured millisecond figure into an answer. A figure that
/// cannot be read is passed over, as a line without a figure is.
pub fn pong_of_capture(capture: Option<String>) -> (r: Option<PingResult>)
    ensures
        r == pong_of(capture_text(capture)),
{
    match capture {
        Some(t) => {
            let figure = chars_of(t.as_str());
            match parse_millis(&figure) {
                Some(micros) => Some(PingResult::Pong(Latency::from_micros(micros))),
                None => None,
            }
        },
        None => None,
    }
}

/// The answer that `line` reports under the regular expression `pattern`,
/// whose group `time` captures a millisecond figure.
pub fn extract_latency(pattern: &str, line: &str) -> (r: Option<PingResult>)
    ensures
        r == pong_of(time_capture(pattern@, line@)),
{
    pong_of_capture(capture_named(pattern, TIME_GROUP, line))
}

} // verus!
