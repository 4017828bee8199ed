//! Small helpers on text, seen as a sequence of characters.

use vstd::prelude::*;
use vstd::std_specs::iter::IteratorSpec;
use vstd::string::StrSliceExecFns;
use vstd::string::StringExecFns;

verus! {

/// The part of `s` in front of its first `/`; all of `s` when it holds none.
pub open spec fn first_segment(s: Seq<char>) -> Seq<char> {
    match s.index_of_first('/') {
        Some(i) => s.take(i),
        None => s,
    }
}

/// The first segment of `s` is the longest prefix of `s` without a `/`: it
/// holds none, and it ends where `s` ends or in front of a `/`.
pub proof fn lemma_first_segment(s: Seq<char>)
    ensures
        first_segment(s).is_prefix_of(s),
        !first_segment(s).contains('/'),
        first_segment(s).len() == s.len() || s[first_segment(s).len() as int] == '/',
{
    s.index_of_first_ensures('/');
}

/// The characters of `s`, in order.
pub fn chars_of(s: &str) -> (chars: Vec<char>)
    ensures
        chars@ == s@,
{
    broadcast use vstd::string::group_string_axioms;

    let mut chars: Vec<char> = Vec::new();
    for c in it: s.chars()
        invariant
            it.seq() == s@,
            chars@ == s@.take(it.index()),
    {
        chars.push(c);
    }
    chars
}

/// Cuts `s` at its first `/` and returns what stands in front of it.
pub fn leading_segment(s: &str) -> (segment: String)
    ensures
        segment@ == first_segment(s@),
{
    let chars = chars_of(s);
    let mut i: usize = 0;
    while i < chars.len() && chars[i] != '/'
        invariant
            chars@ == s@,
            i <= chars.len(),
            forall|j: int| 0 <= j < i ==> s@[j] != '/',
        decreases chars.len() - i,
    {
        i += 1;
    }
    proof {
        s@.index_of_first_ensures('/');
    }
    String::from_str(s.substring_char(0, i))
}

/// `s` without its last character, where that is a `/`.
pub open spec fn without_trailing_slash(s: Seq<char>) -> Seq<char> {
    if s.len() > 0 && s.last() == '/' {
        s.drop_last()
    } else {
        s
    }
}

/// Whether `chars` ends with `suffix`.
pub fn ends_with(chars: &Vec<char>, suffix: &Vec<char>) -> (found: bool)
    ensures
        found == suffix@.is_suffix_of(chars@),
{
    if suffix.len() > chars.len() {
        return false;
    }
    let start = chars.len() - suffix.len();
    let ghost tail = chars@.subrange(start as int, chars.len() as int);
    let mut i: usize = 0;
    while i < suffix.len()
        invariant
            i <= suffix.len() <= chars.len(),
            start == chars.len() - suffix.len(),
            tail == chars@.subrange(start as int, chars.len() as int),
            forall|j: int| 0 <= j < i ==> suffix@[j] == tail[j],
        decreases suffix.len() - i,
    {
        if suffix[i] != chars[start + i] {
            return false;
        }
        i += 1;
    }
    true
}

} // verus!
