//! The life of a probe session: what to do after each thing that happens
//! to it, and what a whole run of output lines delivers.

use vstd::prelude::*;

use crate::model::PingResult;
use crate::platform::{platform_classification, Platform};
use crate::text::texts;

verus! {

/// Whether a session still reads the tool's output.
#[derive(Clone, Copy, Debug, PartialEq, Eq, Structural)]
pub enum SessionState {
    Running,
    Ended,
}

/// What can happen to a running session.
#[derive(Debug, PartialEq, Eq)]
pub enum SessionEvent {
    /// The tool printed a line.
    Line(String),
    /// The consumer took the result that was delivered last.
    Delivered,
    /// The consumer is gone: a result could not be delivered.
    ConsumerGone,
    /// The tool's output could not be read, or was no text.
    ReadFailed,
    /// The tool closed its output.
    OutputEnded,
}

/// What the owner of the session does next.
#[derive(Clone, Copy, Debug, PartialEq, Eq, Structural)]
pub enum SessionAction {
    /// Wait for the next line.
    Read,
    /// Hand the result to the consumer.
    Deliver(PingResult),
    /// Stop reading and end the tool's process.
    Terminate,
}

/// The state after `event`, and the action it calls for.
///
/// A line that reports something is delivered, any other line is passed
/// over; after a delivery the next line is read. When the consumer is
/// gone, or the output has failed or ended, the session ends and the
/// process is to be terminated. An ended session stays ended.
pub open spec fn next(platform: Platform, state: SessionState, event: SessionEvent) -> (
    SessionState,
    SessionAction,
) {
    match state {
        SessionState::Ended => (SessionState::Ended, SessionAction::Terminate),
        SessionState::Running => match event {
            SessionEvent::Line(line) => match platform_classification(platform, line@) {
                Some(result) => (SessionState::Running, SessionAction::Deliver(result)),
                None => (SessionState::Running, SessionAction::Read),
            },
            SessionEvent::Delivered => (SessionState::Running, SessionAction::Read),
            SessionEvent::ConsumerGone => (SessionState::Ended, SessionAction::Terminate),
            SessionEvent::ReadFailed => (SessionState::Ended, SessionAction::Terminate),
            SessionEvent::OutputEnded => (SessionState::Ended, SessionAction::Terminate),
        },
    }
}

/// Decides what a session does after `event`.
pub fn step(platform: Platform, state: SessionState, event: SessionEvent) -> (r: (
    SessionState,
    SessionAction,
))
    ensures
        r == next(platform, state, event),
{
    match state {
        SessionState::Ended => (SessionState::Ended, SessionAction::Terminate),
        SessionState::Running => match event {
            SessionEvent::Line(line) => match platform.parse(line) {
                Some(result) => (SessionState::Running, SessionAction::Deliver(result)),
                None => (SessionState::Running, SessionAction::Read),
            },
            SessionEvent::Delivered => (SessionState::Running, SessionAction::Read),
            SessionEvent::ConsumerGone => (SessionState::Ended, SessionAction::Terminate),
            SessionEvent::ReadFailed => (SessionState::Ended, SessionAction::Terminate),
            SessionEvent::OutputEnded => (SessionState::Ended, SessionAction::Terminate),
        },
    }
}

/// Once the consumer is gone, or the output has failed or ended, the
/// session calls for the end of the process, and so it does after
/// anything that happens later.
pub proof fn lemma_session_ends_for_good(
    platform: Platform,
    state: SessionState,
    end: SessionEvent,
    later: SessionEvent,
)
    requires
        end is ConsumerGone || end is ReadFailed || end is OutputEnded,
    ensures
        next(platform, state, end) == (SessionState::Ended, SessionAction::Terminate),
        next(platform, next(platform, state, end).0, later) == (
            SessionState::Ended,
            SessionAction::Terminate,
        ),
{
}

/// A running session hands on exactly what a line reports, and asks for
/// the next line where it reports nothing.
pub proof fn lemma_line_is_delivered_or_passed_over(platform: Platform, line: String)
    ensures
        next(platform, SessionState::Running, SessionEvent::Line(line)) == (
            SessionState::Running,
            match platform_classification(platform, line@) {
                Some(result) => SessionAction::Deliver(result),
                None => SessionAction::Read,
            },
        ),
{
}

/// The results that the lines report, in the order of the lines; a line
/// that reports nothing leaves no trace.
pub open spec fn results_of(platform: Platform, lines: Seq<Seq<char>>) -> Seq<PingResult>
    decreases lines.len(),
{
    if lines.len() == 0 {
        Seq::empty()
    } else {
        let before = results_of(platform, lines.drop_last());
        match platform_classification(platform, lines.last()) {
            Some(result) => before.push(result),
            None => before,
        }
    }
}

/// The index, among the results, of what line `i` reports: the number of
/// results that the lines before it give.
pub open spec fn position(platform: Platform, lines: Seq<Seq<char>>, i: int) -> int {
    results_of(platform, lines.take(i)).len() as int
}

/// Classifies a whole run of output lines.
pub fn classify_lines(platform: Platform, lines: &Vec<String>) -> (r: Vec<PingResult>)
    ensures
        r@ == results_of(platform, texts(lines@)),
{
    let mut out: Vec<PingResult> = Vec::new();
    let mut i: usize = 0;
    while i < lines.len()
        invariant
            i <= lines.len(),
            out@ == results_of(platform, texts(lines@).take(i as int)),
        decreases lines.len() - i,
    {
        let line: String = lines[i].clone();
        proof {
            let done = texts(lines@).take(i as int + 1);
            assert(done.drop_last() =~= texts(lines@).take(i as int));
        }
        match platform.parse(line) {
            Some(result) => {
                out.push(result);
            },
            None => {},
        }
        i += 1;
    }
    proof {
        assert(texts(lines@).take(lines@.len() as int) =~= texts(lines@));
    }
    out
}

/// What a running session hands to its consumer while the tool prints
/// `lines`, one after the other.
pub open spec fn delivered(platform: Platform, lines: Seq<String>) -> Seq<PingResult>
    decreases lines.len(),
{
    if lines.len() == 0 {
        Seq::empty()
    } else {
        let before = delivered(platform, lines.drop_last());
        match next(platform, SessionState::Running, SessionEvent::Line(lines.last())).1 {
            SessionAction::Deliver(result) => before.push(result),
            _ => before,
        }
    }
}

/// A session that reads line by line delivers what the whole run of
/// lines reports, in the same order.
pub proof fn lemma_session_delivers_results(platform: Platform, lines: Seq<String>)
    ensures
        delivered(platform, lines) == results_of(platform, texts(lines)),
    decreases lines.len(),
{
    if lines.len() > 0 {
        lemma_session_delivers_results(platform, lines.drop_last());
        assert(texts(lines).drop_last() =~= texts(lines.drop_last()));
    }
}

/// Reading two runs of lines one after the other gives the results of the
/// first run followed by those of the second: nothing is reordered, and
/// what a line reports does not depend on the lines around it.
pub proof fn lemma_results_of_concat(platform: Platform, a: Seq<Seq<char>>, b: Seq<Seq<char>>)
    ensures
        results_of(platform, a + b) == results_of(platform, a) + results_of(platform, b),
    decreases b.len(),
{
    if b.len() == 0 {
    } else {
        assert((a + b).drop_last() =~= a + b.drop_last());
        lemma_results_of_concat(platform, a, b.drop_last());
    }
}

/// More lines never give fewer results.
pub proof fn lemma_position_grows(platform: Platform, lines: Seq<Seq<char>>, i: int, j: int)
    requires
        0 <= i <= j <= lines.len(),
    ensures
        position(platform, lines, i) <= position(platform, lines, j),
{
    assert(lines.take(j) =~= lines.take(i) + lines.subrange(i, j));
    lemma_results_of_concat(platform, lines.take(i), lines.subrange(i, j));
}

/// What a line reports stands among the results at the line's position.
pub proof fn lemma_result_at_position(platform: Platform, lines: Seq<Seq<char>>, i: int)
    requires
        0 <= i < lines.len(),
        platform_classification(platform, lines[i]) is Some,
    ensures
        0 <= position(platform, lines, i) < results_of(platform, lines).len(),
        results_of(platform, lines)[position(platform, lines, i)] == platform_classification(
            platform,
            lines[i],
        ).unwrap(),
{
    let upto = lines.take(i + 1);
    assert(upto.drop_last() =~= lines.take(i));
    assert(lines =~= upto + lines.skip(i + 1));
    lemma_results_of_concat(platform, upto, lines.skip(i + 1));
}

/// Every result is what some line reports, and stands at that line's
/// position: nothing is delivered that the tool did not print.
pub proof fn lemma_result_has_its_line(platform: Platform, lines: Seq<Seq<char>>, p: int) -> (i:
    int)
    requires
        0 <= p < results_of(platform, lines).len(),
    ensures
        0 <= i < lines.len(),
        position(platform, lines, i) == p,
        platform_classification(platform, lines[i]) == Some(results_of(platform, lines)[p]),
    decreases lines.len(),
{
    let before = lines.drop_last();
    if p < results_of(platform, before).len() {
        let i = lemma_result_has_its_line(platform, before, p);
        assert(before.take(i) =~= lines.take(i));
        i
    } else {
        let i = lines.len() - 1;
        assert(lines.take(i) =~= before);
        i
    }
}

/// The order of the results is the order of the lines: of two lines that
/// both report something, the earlier one's result stands first.
pub proof fn lemma_results_keep_order(platform: Platform, lines: Seq<Seq<char>>, i: int, j: int)
    requires
        0 <= i < j < lines.len(),
        platform_classification(platform, lines[i]) is Some,
        platform_classification(platform, lines[j]) is Some,
    ensures
        0 <= position(platform, lines, i) < position(platform, lines, j) < results_of(
            platform,
            lines,
        ).len(),
        results_of(platform, lines)[position(platform, lines, i)] == platform_classification(
            platform,
            lines[i],
        ).unwrap(),
        results_of(platform, lines)[position(platform, lines, j)] == platform_classification(
            platform,
            lines[j],
        ).unwrap(),
{
    lemma_result_at_position(platform, lines, i);
    lemma_result_at_position(platform, lines, j);
    let upto = lines.take(i + 1);
    assert(upto.drop_last() =~= lines.take(i));
    lemma_position_grows(platform, lines, i + 1, j);
}

} // verus!
