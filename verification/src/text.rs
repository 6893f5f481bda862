//! Text helpers shared by the handlers.

use vstd::prelude::*;

verus! {

/// `needle` occurs in `haystack` as a contiguous run of characters.
pub open spec fn is_substring(needle: Seq<char>, haystack: Seq<char>) -> bool {
    exists|i: int| occurs_at(needle, haystack, i)
}

/// `needle` occurs in `haystack` starting at position `i`.
pub open spec fn occurs_at(needle: Seq<char>, haystack: Seq<char>, i: int) -> bool {
    &&& 0 <= i
    &&& i + needle.len() <= haystack.len()
    &&& haystack.subrange(i, i + needle.len()) == needle
}

/// The characters of `s`, in order.
fn chars_of(s: &str) -> (v: Vec<char>)
    ensures
        v@ == s@,
{
    broadcast use vstd::string::axiom_spec_iter;

    let mut v: Vec<char> = Vec::new();
    let chars = s.chars();
    for c in it: chars
        invariant
            it.seq() == s@,
            v@ == it.seq().take(it.index()),
    {
        v.push(c);
    }
    assert(s@.take(s@.len() as int) == s@);
    v
}

/// Whether `needle` stands in `haystack` at position `start`.
fn matches_at(haystack: &Vec<char>, needle: &Vec<char>, start: usize) -> (found: bool)
    requires
        start + needle.len() <= haystack.len(),
    ensures
        found == occurs_at(needle@, haystack@, start as int),
{
    let mut j: usize = 0;
    while j < needle.len()
        invariant
            j <= needle.len(),
            start + needle.len() <= haystack.len(),
            forall|k: int| 0 <= k < j ==> haystack@[start + k] == needle@[k],
        decreases needle.len() - j,
    {
        if haystack[start + j] != needle[j] {
            assert(haystack@.subrange(start as int, start + needle@.len())[j as int]
                == haystack@[start + j]);
            return false;
        }
        j += 1;
    }
    assert(haystack@.subrange(start as int, start + needle@.len()) =~= needle@);
    true
}

/// Whether `needle` occurs anywhere in `haystack`. The empty needle occurs
/// in every text.
pub fn contains_text(haystack: &str, needle: &str) -> (found: bool)
    ensures
        found == is_substring(needle@, haystack@),
{
    let h = chars_of(haystack);
    let n = chars_of(needle);
    if n.len() > h.len() {
        return false;
    }
    let last: usize = h.len() - n.len();
    let mut i: usize = 0;
    while i < last
        invariant
            h@ == haystack@,
            n@ == needle@,
            last == h.len() - n.len(),
            n.len() <= h.len(),
            i <= last,
            forall|k: int| 0 <= k < i ==> !occurs_at(n@, h@, k),
        decreases last - i,
    {
        if matches_at(&h, &n, i) {
            return true;
        }
        i += 1;
    }
    matches_at(&h, &n, last)
}

} // verus!
