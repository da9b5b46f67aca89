//! The two capabilities of a platform: arguments for its `ping` tool, and
//! the reading of one line of that tool's output.

use vstd::prelude::*;

use crate::capture::{extract_latency, pong_of, time_capture};
use crate::model::PingResult;
use crate::text::texts;

verus! {

/// Builds the command line of a platform's `ping` tool.
pub trait Pinger: Default {
    /// The arguments that probe `target`, in order.
    spec fn arguments(&self, target: Seq<char>) -> Seq<Seq<char>>;

    /// The arguments to run `ping` with, for the host `target`.
    fn ping_args(&self, target: String) -> (r: Vec<String>)
        ensures
            texts(r@) == self.arguments(target@),
    ;
}

/// Reads the output of a platform's `ping` tool, line by line.
pub trait Parser: Default {
    /// What `line` reports: an answer, a timeout, or nothing.
    spec fn classification(&self, line: Seq<char>) -> Option<PingResult>;

    /// Classifies one line of output. The result depends on the line
    /// alone.
    fn parse(&self, line: String) -> (r: Option<PingResult>)
        ensures
            r == self.classification(line@),
    ;

    /// The answer that `line` reports under the regular expression
    /// `pattern`, whose group `time` captures a millisecond figure.
    fn extract_regex(&self, pattern: &str, line: String) -> (r: Option<PingResult>)
        ensures
            r == pong_of(time_capture(pattern@, line@)),
    {
        extract_latency(pattern, line.as_str())
    }
}

/// The arguments of a tool that takes the target and nothing else.
pub open spec fn plain_arguments(target: Seq<char>) -> Seq<Seq<char>> {
    seq![target]
}

/// A pinger for tools that need no flags.
pub struct SimplePinger {}

impl Default for SimplePinger {
    fn default() -> (r: Self) {
        SimplePinger {  }
    }
}

impl Pinger for SimplePinger {
    open spec fn arguments(&self, target: Seq<char>) -> Seq<Seq<char>> {
        plain_arguments(target)
    }

    fn ping_args(&self, target: String) -> (r: Vec<String>) {
        let mut args: Vec<String> = Vec::new();
        args.push(target);
        args
    }
}

} // verus!
