//! Character-level helpers shared by validation and search.

use vstd::prelude::*;

verus! {

/// `pattern` stands in `text` at position `at`.
pub open spec fn occurs_at(text: Seq<char>, pattern: Seq<char>, at: int) -> bool {
    &&& 0 <= at
    &&& at + pattern.len() <= text.len()
    &&& text.subrange(at, at + pattern.len()) == pattern
}

/// `pattern` stands somewhere in `text`. The empty pattern stands in every
/// text.
pub open spec fn contains_text(text: Seq<char>, pattern: Seq<char>) -> bool {
    exists|at: int| occurs_at(text, pattern, at)
}

/// The characters of `text`, in order.
pub fn chars_of(text: &str) -> (out: Vec<char>)
    ensures
        out@ == text@,
{
    let mut out: Vec<char> = Vec::new();
    for c in it: text.chars()
        invariant
            out@ == it.seq().take(it.index()),
    {
        out.push(c);
    }
    out
}

/// Whether `pattern` stands in `text` at position `at`.
fn stands_at(text: &Vec<char>, pattern: &Vec<char>, at: usize) -> (yes: bool)
    requires
        at + pattern.len() <= text.len(),
    ensures
        yes == occurs_at(text@, pattern@, at as int),
{
    let mut done: usize = 0;
    while done < pattern.len()
        invariant
            done <= pattern.len(),
            at + pattern.len() <= text.len(),
            forall|k: int| 0 <= k < done ==> text[at + k] == pattern[k],
        decreases pattern.len() - done,
    {
        if text[at + done] != pattern[done] {
            assert(text@.subrange(at as int, at + pattern.len())[done as int] != pattern[done as int]);
            return false;
        }
        done += 1;
    }
    assert(text@.subrange(at as int, at + pattern.len()) =~= pattern@);
    true
}

/// Whether `pattern` stands somewhere in `text`.
pub fn contains_chars(text: &Vec<char>, pattern: &Vec<char>) -> (yes: bool)
    ensures
        yes == contains_text(text@, pattern@),
{
    if pattern.len() > text.len() {
        return false;
    }
    let last: usize = text.len() - pattern.len();
    let mut at: usize = 0;
    while at < last
        invariant
            at <= last,
            last + pattern.len() == text.len(),
            forall|before: int| 0 <= before < at ==> !occurs_at(text@, pattern@, before),
        decreases last - at,
    {
        if stands_at(text, pattern, at) {
            return true;
        }
        at += 1;
    }
    stands_at(text, pattern, last)
}

/// Whether the two texts are the same.
pub fn same(left: &str, right: &str) -> (yes: bool)
    ensures
        yes == (left@ == right@),
{
    let left_chars = chars_of(left);
    let right_chars = chars_of(right);
    if left_chars.len() != right_chars.len() {
        return false;
    }
    let mut at: usize = 0;
    while at < left_chars.len()
        invariant
            at <= left_chars.len(),
            left_chars.len() == right_chars.len(),
            left_chars@ == left@,
            right_chars@ == right@,
            forall|k: int| 0 <= k < at ==> left_chars[k] == right_chars[k],
        decreases left_chars.len() - at,
    {
        if left_chars[at] != right_chars[at] {
            assert(left@[at as int] != right@[at as int]);
            return false;
        }
        at += 1;
    }
    assert(left_chars@ =~= right_chars@);
    true
}

} // verus!
