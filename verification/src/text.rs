//! Character-level helpers on strings.
//!
//! A string is modelled by its view, the sequence of its characters. The
//! predicates here are stated over such sequences; the executable functions
//! work on `Vec<char>`, which [`chars_of`] produces from a `&str`.

use vstd::prelude::*;

verus! {

/// `needle` occurs in `hay` starting at position `at`.
pub open spec fn occurs_at(needle: Seq<char>, hay: Seq<char>, at: int) -> bool {
    &&& 0 <= at
    &&& at + needle.len() <= hay.len()
    &&& hay.subrange(at, at + needle.len()) == needle
}

/// `needle` occurs somewhere in `hay` as a contiguous run of characters.
/// The empty sequence occurs in every sequence.
pub open spec fn is_substring(needle: Seq<char>, hay: Seq<char>) -> bool {
    exists|at: int| occurs_at(needle, hay, at)
}

/// `tail` is what `text` ends with.
pub open spec fn has_suffix(text: Seq<char>, tail: Seq<char>) -> bool {
    &&& tail.len() <= text.len()
    &&& text.subrange(text.len() - tail.len(), text.len() as int) == tail
}

/// The lower-case form of an ASCII capital letter; any other character is
/// left as it is.
pub open spec fn ascii_lower(c: char) -> char {
    if 'A' <= c && c <= 'Z' {
        ((c as u32) + 32) as char
    } else {
        c
    }
}

/// The two sequences have the same length and agree position by position
/// once ASCII capitals are lowered. Characters outside ASCII must be equal.
pub open spec fn eq_ignore_ascii_case(a: Seq<char>, b: Seq<char>) -> bool {
    &&& a.len() == b.len()
    &&& forall|i: int| 0 <= i < a.len() ==> ascii_lower(#[trigger] a[i]) == ascii_lower(b[i])
}

/// The characters of `s`, in order.
pub fn chars_of(s: &str) -> (out: Vec<char>)
    ensures
        out@ == s@,
{
    let mut out: Vec<char> = Vec::new();
    for c in it: s.chars()
        invariant
            out@ == it.seq().take(it.index()),
    {
        out.push(c);
    }
    out
}

/// Whether two characters are equal once ASCII capitals are lowered.
pub fn char_eq_ignore_ascii_case(a: char, b: char) -> (same: bool)
    ensures
        same == (ascii_lower(a) == ascii_lower(b)),
{
    if a == b {
        true
    } else if 'A' <= a && a <= 'Z' {
        (a as u32) + 32 == (b as u32)
    } else if 'A' <= b && b <= 'Z' {
        (b as u32) + 32 == (a as u32)
    } else {
        false
    }
}

/// Whether `text[at..]` begins with `needle`.
pub fn matches_at(needle: &Vec<char>, text: &Vec<char>, at: usize) -> (found: bool)
    ensures
        found == occurs_at(needle@, text@, at as int),
{
    if needle.len() > text.len() || at > text.len() - needle.len() {
        return false;
    }
    let mut k: usize = 0;
    while k < needle.len()
        invariant
            k <= needle.len(),
            at + needle.len() <= text.len(),
            forall|j: int| 0 <= j < k ==> text@[at + j] == needle@[j],
        decreases needle.len() - k,
    {
        if text[at + k] != needle[k] {
            assert(text@.subrange(at as int, at + needle.len())[k as int] != needle@[k as int]);
            return false;
        }
        k += 1;
    }
    assert(text@.subrange(at as int, at + needle.len()) =~= needle@);
    true
}

/// Whether `text` ends with `tail`.
pub fn ends_with(text: &Vec<char>, tail: &Vec<char>) -> (found: bool)
    ensures
        found == has_suffix(text@, tail@),
{
    if tail.len() > text.len() {
        return false;
    }
    matches_at(tail, text, text.len() - tail.len())
}

/// Whether `needle` occurs somewhere in `text`.
pub fn contains(text: &Vec<char>, needle: &Vec<char>) -> (found: bool)
    ensures
        found == is_substring(needle@, text@),
{
    if needle.len() > text.len() {
        return false;
    }
    let last: usize = text.len() - needle.len();
    let mut at: usize = 0;
    loop
        invariant
            at <= last,
            last == text.len() - needle.len(),
            forall|j: int| 0 <= j < at ==> !occurs_at(needle@, text@, j),
        decreases last - at,
    {
        if matches_at(needle, text, at) {
            return true;
        }
        if at == last {
            return false;
        }
        at += 1;
    }
}

/// Whether `a` and `b` are equal once ASCII capitals are lowered.
pub fn equals_ignore_ascii_case(a: &Vec<char>, b: &Vec<char>) -> (same: bool)
    ensures
        same == eq_ignore_ascii_case(a@, b@),
{
    if a.len() != b.len() {
        return false;
    }
    let mut i: usize = 0;
    while i < a.len()
        invariant
            i <= a.len(),
            a.len() == b.len(),
            forall|j: int| 0 <= j < i ==> ascii_lower(#[trigger] a@[j]) == ascii_lower(b@[j]),
        decreases a.len() - i,
    {
        if !char_eq_ignore_ascii_case(a[i], b[i]) {
            return false;
        }
        i += 1;
    }
    true
}

} // verus!
