//! Lines of text as sequences of characters.

use vstd::prelude::*;

verus! {

/// `prefix` is what `line` begins with.
pub open spec fn begins_with(line: Seq<char>, prefix: Seq<char>) -> bool {
    prefix.len() <= line.len() && line.subrange(0, prefix.len() as int) == prefix
}

/// `needle` stands in `line` at index `at`.
pub open spec fn occurs_at(line: Seq<char>, needle: Seq<char>, at: int) -> bool {
    0 <= at && at + needle.len() <= line.len() && line.subrange(at, at + needle.len()) == needle
}

/// `needle` stands somewhere in `line`.
pub open spec fn occurs_in(line: Seq<char>, needle: Seq<char>) -> bool {
    exists|at: int| occurs_at(line, needle, at)
}

/// The views of a sequence of strings.
pub open spec fn texts(items: Seq<String>) -> Seq<Seq<char>> {
    items.map_values(|s: String| s@)
}

/// The characters of `s`, in order.
pub fn chars_of(s: &str) -> (r: Vec<char>)
    ensures
        r@ == s@,
{
    let mut out: Vec<char> = Vec::new();
    for c in it: s.chars()
        invariant
            it.seq() == s@,
            out@ == s@.take(it.index() as int),
    {
        out.push(c);
    }
    out
}

/// Whether `needle` stands in `line` at index `at`.
pub fn found_at(line: &Vec<char>, needle: &Vec<char>, at: usize) -> (b: bool)
    ensures
        b == occurs_at(line@, needle@, at as int),
{
    if needle.len() > line.len() || at > line.len() - needle.len() {
        return false;
    }
    let mut k: usize = 0;
    while k < needle.len()
        invariant
            k <= needle.len(),
            at + needle.len() <= line.len(),
            forall|j: int| 0 <= j < k ==> line@[at + j] == needle@[j],
        decreases needle.len() - k,
    {
        if line[at + k] != needle[k] {
            return false;
        }
        k += 1;
    }
    proof {
        assert(line@.subrange(at as int, at + needle@.len()) =~= needle@);
    }
    true
}

/// Whether `line` begins with `prefix`.
pub fn starts_with(line: &Vec<char>, prefix: &Vec<char>) -> (b: bool)
    ensures
        b == begins_with(line@, prefix@),
{
    found_at(line, prefix, 0)
}

/// Whether `a` and `b` hold the same characters.
pub fn same_text(a: &Vec<char>, b: &Vec<char>) -> (r: bool)
    ensures
        r == (a@ == b@),
{
    if a.len() != b.len() {
        return false;
    }
    let found = found_at(a, b, 0);
    proof {
        assert(a@.subrange(0, a@.len() as int) =~= a@);
    }
    found
}

/// Whether `needle` stands somewhere in `line`.
pub fn contains(line: &Vec<char>, needle: &Vec<char>) -> (b: bool)
    ensures
        b == occurs_in(line@, needle@),
{
    if needle.len() > line.len() {
        return false;
    }
    if needle.len() == 0 {
        proof {
            assert(line@.subrange(0, 0) =~= needle@);
            assert(occurs_at(line@, needle@, 0));
        }
        return true;
    }
    let last: usize = line.len() - needle.len();
    let mut at: usize = 0;
    while at <= last
        invariant
            at <= last + 1,
            last == line.len() - needle.len(),
            last < line.len(),
            forall|j: int| 0 <= j < at ==> !occurs_at(line@, needle@, j),
        decreases last + 1 - at,
    {
        if found_at(line, needle, at) {
            return true;
        }
        at += 1;
    }
    false
}

} // verus!
