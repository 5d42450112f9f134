//! Sequences of characters: prefixes and `/`-separated segments.

use vstd::prelude::*;

verus! {

/// What is left of `s` once `prefix` is taken off its front, if `s` begins with it.
pub open spec fn strip_prefix(s: Seq<char>, prefix: Seq<char>) -> Option<Seq<char>> {
    if prefix.is_prefix_of(s) {
        Some(s.skip(prefix.len() as int))
    } else {
        None
    }
}

/// The number of characters of `s` that stand before its first `/`;
/// the whole length where `s` holds no `/`.
pub open spec fn segment_len(s: Seq<char>) -> int
    decreases s.len(),
{
    if s.len() == 0 || s[0] == '/' {
        0
    } else {
        1 + segment_len(s.drop_first())
    }
}

/// `segment_len(s)` is a place in `s`, no `/` stands before it, and a `/` stands at it
/// unless it is the end of `s`.
pub proof fn lemma_segment_len_bounds(s: Seq<char>)
    ensures
        0 <= segment_len(s) <= s.len(),
        forall|j: int| 0 <= j < segment_len(s) ==> s[j] != '/',
        segment_len(s) < s.len() ==> s[segment_len(s)] == '/',
    decreases s.len(),
{
    if s.len() != 0 && s[0] != '/' {
        let tail = s.drop_first();
        lemma_segment_len_bounds(tail);
        assert forall|j: int| 0 <= j < segment_len(s) implies s[j] != '/' by {
            if j > 0 {
                assert(s[j] == tail[j - 1]);
            }
        }
        assert(segment_len(tail) < tail.len() ==> tail[segment_len(tail)] == s[segment_len(s)]);
    }
}

/// The place described by [`lemma_segment_len_bounds`] is the only one of its kind.
pub proof fn lemma_segment_len_unique(s: Seq<char>, end: int)
    requires
        0 <= end <= s.len(),
        forall|j: int| 0 <= j < end ==> s[j] != '/',
        end < s.len() ==> s[end] == '/',
    ensures
        segment_len(s) == end,
    decreases s.len(),
{
    if end > 0 {
        let tail = s.drop_first();
        assert(s[0] != '/');
        assert forall|j: int| 0 <= j < end - 1 implies tail[j] != '/' by {
            assert(tail[j] == s[j + 1]);
        }
        lemma_segment_len_unique(tail, end - 1);
    }
}

/// The characters of `s`, in a vector that can be indexed in constant time.
pub(crate) fn chars_of(s: &str) -> (chars: Vec<char>)
    ensures
        chars@ == s@,
{
    let mut chars: Vec<char> = Vec::new();
    for c in it: s.chars()
        invariant
            it.seq() == s@,
            chars@ == it.seq().take(it.index()),
    {
        chars.push(c);
    }
    chars
}

/// Whether `prefix` stands in `chars` at index `from`.
pub(crate) fn starts_with_at(chars: &Vec<char>, from: usize, prefix: &Vec<char>) -> (found: bool)
    requires
        from <= chars.len(),
    ensures
        found == prefix@.is_prefix_of(chars@.skip(from as int)),
{
    let rest = Ghost(chars@.skip(from as int));
    if prefix.len() > chars.len() - from {
        return false;
    }
    let mut i: usize = 0;
    while i < prefix.len()
        invariant
            from <= chars.len(),
            prefix.len() <= chars.len() - from,
            rest@ == chars@.skip(from as int),
            0 <= i <= prefix.len(),
            forall|j: int| 0 <= j < i ==> prefix@[j] == rest@[j],
        decreases prefix.len() - i,
    {
        if prefix[i] != chars[from + i] {
            assert(rest@[i as int] != prefix@[i as int]);
            return false;
        }
        i += 1;
    }
    assert(rest@.subrange(0, prefix@.len() as int) =~= prefix@);
    true
}

/// The index at which the segment of `chars` that begins at `from` ends:
/// that of the next `/`, or the length of `chars`.
pub(crate) fn segment_end(chars: &Vec<char>, from: usize) -> (end: usize)
    requires
        from <= chars.len(),
    ensures
        end == from + segment_len(chars@.skip(from as int)),
        from <= end <= chars.len(),
{
    let mut end: usize = from;
    while end < chars.len() && chars[end] != '/'
        invariant
            from <= end <= chars.len(),
            forall|j: int| from <= j < end ==> chars@[j] != '/',
        decreases chars.len() - end,
    {
        end += 1;
    }
    proof {
        lemma_segment_len_unique(chars@.skip(from as int), end - from);
    }
    end
}

} // verus!
