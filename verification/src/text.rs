//! Character-sequence primitives: substring search, cutting at a stop
//! character, trimming of white space, and comparison without regard to
//! ASCII case.

use vstd::prelude::*;

verus! {

/// `needle` occurs in `hay` starting at position `at`.
pub open spec fn occurs_at(hay: Seq<char>, needle: Seq<char>, at: int) -> bool {
    &&& 0 <= at
    &&& at + needle.len() <= hay.len()
    &&& hay.subrange(at, at + needle.len()) == needle
}

/// `needle` occurs somewhere in `hay`.
pub open spec fn contains(hay: Seq<char>, needle: Seq<char>) -> bool {
    exists|at: int| occurs_at(hay, needle, at)
}

/// `at` is the leftmost position at which `needle` occurs in `hay`.
pub open spec fn is_first_occurrence(hay: Seq<char>, needle: Seq<char>, at: int) -> bool {
    &&& occurs_at(hay, needle, at)
    &&& forall|j: int| 0 <= j < at ==> !occurs_at(hay, needle, j)
}

/// The leftmost position at which `needle` occurs in `hay`, if it occurs.
pub open spec fn first_occurrence(hay: Seq<char>, needle: Seq<char>) -> Option<int> {
    if contains(hay, needle) {
        Some(choose|at: int| is_first_occurrence(hay, needle, at))
    } else {
        None
    }
}

/// `hay` begins with `prefix`.
pub open spec fn starts_with(hay: Seq<char>, prefix: Seq<char>) -> bool {
    occurs_at(hay, prefix, 0)
}

/// `k` is the position of the first `stop` in `s`, or the length of `s`
/// when `stop` does not occur.
pub open spec fn is_cut(s: Seq<char>, stop: char, k: int) -> bool {
    &&& 0 <= k <= s.len()
    &&& forall|i: int| 0 <= i < k ==> s[i] != stop
    &&& k < s.len() ==> s[k] == stop
}

/// The position of the first `stop` in `s`, or the length of `s`.
pub open spec fn cut_index(s: Seq<char>, stop: char) -> int {
    choose|k: int| is_cut(s, stop, k)
}

/// The part of `s` before its first `stop`; all of `s` when there is none.
pub open spec fn up_to(s: Seq<char>, stop: char) -> Seq<char> {
    s.take(cut_index(s, stop))
}

/// White space as Unicode defines it (the `White_Space` property).
pub open spec fn is_space(c: char) -> bool {
    let u = c as u32;
    ||| 0x09 <= u <= 0x0D
    ||| u == 0x20
    ||| u == 0x85
    ||| u == 0xA0
    ||| u == 0x1680
    ||| 0x2000 <= u <= 0x200A
    ||| u == 0x2028
    ||| u == 0x2029
    ||| u == 0x202F
    ||| u == 0x205F
    ||| u == 0x3000
}

/// `s` without its leading white space.
pub open spec fn trim_start(s: Seq<char>) -> Seq<char>
    decreases s.len(),
{
    if s.len() > 0 && is_space(s.first()) {
        trim_start(s.drop_first())
    } else {
        s
    }
}

/// `s` without its trailing white space.
pub open spec fn trim_end(s: Seq<char>) -> Seq<char>
    decreases s.len(),
{
    if s.len() > 0 && is_space(s.last()) {
        trim_end(s.drop_last())
    } else {
        s
    }
}

/// `s` without leading and trailing white space.
pub open spec fn trimmed(s: Seq<char>) -> Seq<char> {
    trim_end(trim_start(s))
}

/// The lower-case form of an ASCII capital; any other character unchanged.
pub open spec fn ascii_lower(c: char) -> char {
    if 'A' <= c <= 'Z' {
        ((c as u32) + 32) as char
    } else {
        c
    }
}

/// `s` with every ASCII capital replaced by its lower-case form.
pub open spec fn lowered(s: Seq<char>) -> Seq<char> {
    Seq::new(s.len(), |i: int| ascii_lower(s[i]))
}

/// A sequence has at most one leftmost occurrence of a needle, and it is
/// the one that `first_occurrence` names.
pub proof fn lemma_first_occurrence(hay: Seq<char>, needle: Seq<char>, at: int)
    requires
        is_first_occurrence(hay, needle, at),
    ensures
        first_occurrence(hay, needle) == Some(at),
{
    let chosen = choose|k: int| is_first_occurrence(hay, needle, k);
    assert(is_first_occurrence(hay, needle, chosen));
    assert(occurs_at(hay, needle, at));
    if chosen < at {
        assert(!occurs_at(hay, needle, chosen));
    }
    if at < chosen {
        assert(!occurs_at(hay, needle, at));
    }
}

/// A sequence in which the needle occurs nowhere has no first occurrence.
pub proof fn lemma_no_occurrence(hay: Seq<char>, needle: Seq<char>)
    requires
        forall|j: int| 0 <= j <= hay.len() - needle.len() ==> !occurs_at(hay, needle, j),
    ensures
        !contains(hay, needle),
        first_occurrence(hay, needle) is None,
{
}

/// The cut position of a sequence is unique.
pub proof fn lemma_cut_index(s: Seq<char>, stop: char, k: int)
    requires
        is_cut(s, stop, k),
    ensures
        cut_index(s, stop) == k,
        up_to(s, stop) == s.take(k),
{
    let chosen = cut_index(s, stop);
    assert(is_cut(s, stop, chosen));
    if chosen < k {
        assert(s[chosen] != stop);
    }
    if k < chosen {
        assert(s[k] != stop);
    }
}

/// The characters of a string slice, in order.
pub fn chars_of(s: &str) -> (chars: Vec<char>)
    ensures
        chars@ == s@,
{
    let mut chars: Vec<char> = Vec::new();
    for c in it: s.chars()
        invariant
            it.seq() == s@,
            chars@ == it.seq().take(it.index()),
    {
        chars.push(c);
    }
    chars
}

/// Tells whether `needle` occurs in `hay` at position `at`.
pub fn occurs_at_position(hay: &Vec<char>, needle: &Vec<char>, at: usize) -> (found: bool)
    ensures
        found == occurs_at(hay@, needle@, at as int),
{
    if needle.len() > hay.len() || at > hay.len() - needle.len() {
        return false;
    }
    let mut k: usize = 0;
    while k < needle.len()
        invariant
            k <= needle.len(),
            at + needle.len() <= hay.len(),
            forall|i: int| 0 <= i < k ==> hay@[at + i] == needle@[i],
        decreases needle.len() - k,
    {
        if hay[at + k] != needle[k] {
            assert(hay@.subrange(at as int, at + needle.len())[k as int] == hay@[at + k]);
            return false;
        }
        k += 1;
    }
    assert(hay@.subrange(at as int, at + needle.len()) =~= needle@);
    true
}

/// The leftmost position at which `needle` occurs in `hay`.
pub fn find(hay: &Vec<char>, needle: &Vec<char>) -> (found: Option<usize>)
    ensures
        match found {
            Some(at) => is_first_occurrence(hay@, needle@, at as int),
            None => !contains(hay@, needle@),
        },
        first_occurrence(hay@, needle@) == match found {
            Some(at) => Some(at as int),
            None => None,
        },
{
    if needle.len() > hay.len() {
        proof {
            lemma_no_occurrence(hay@, needle@);
        }
        return None;
    }
    if needle.len() == 0 {
        proof {
            assert(hay@.subrange(0, 0) =~= needle@);
            lemma_first_occurrence(hay@, needle@, 0);
        }
        return Some(0);
    }
    let last: usize = hay.len() - needle.len();
    let mut at: usize = 0;
    while at <= last
        invariant
            at <= last + 1,
            last == hay.len() - needle.len(),
            last < hay.len(),
            forall|j: int| 0 <= j < at ==> !occurs_at(hay@, needle@, j),
        decreases last + 1 - at,
    {
        if occurs_at_position(hay, needle, at) {
            proof {
                lemma_first_occurrence(hay@, needle@, at as int);
            }
            return Some(at);
        }
        at += 1;
    }
    proof {
        lemma_no_occurrence(hay@, needle@);
    }
    None
}

/// Tells whether `hay` begins with `prefix`.
pub fn begins_with(hay: &Vec<char>, prefix: &Vec<char>) -> (yes: bool)
    ensures
        yes == starts_with(hay@, prefix@),
{
    occurs_at_position(hay, prefix, 0)
}

/// Tells whether `needle` occurs anywhere in `hay`.
pub fn includes(hay: &Vec<char>, needle: &Vec<char>) -> (yes: bool)
    ensures
        yes == contains(hay@, needle@),
{
    find(hay, needle).is_some()
}

/// The position of the first `stop` at or after `from`, or the length of
/// `s` when there is none.
pub fn find_stop(s: &Vec<char>, from: usize, stop: char) -> (end: usize)
    requires
        from <= s.len(),
    ensures
        from <= end <= s.len(),
        end - from == cut_index(s@.skip(from as int), stop),
        s@.subrange(from as int, end as int) == up_to(s@.skip(from as int), stop),
{
    let mut end: usize = from;
    while end < s.len() && s[end] != stop
        invariant
            from <= end <= s.len(),
            forall|i: int| from <= i < end ==> s@[i] != stop,
        decreases s.len() - end,
    {
        end += 1;
    }
    proof {
        let rest = s@.skip(from as int);
        assert forall|i: int| 0 <= i < end - from implies rest[i] != stop by {
            assert(rest[i] == s@[from + i]);
        }
        lemma_cut_index(rest, stop, end - from);
        assert(rest.take(end - from) =~= s@.subrange(from as int, end as int));
    }
    end
}

/// Tells whether a character is white space.
pub fn is_whitespace(c: char) -> (yes: bool)
    ensures
        yes == is_space(c),
{
    let u: u32 = c as u32;
    (0x09 <= u && u <= 0x0D) || u == 0x20 || u == 0x85 || u == 0xA0 || u == 0x1680 || (0x2000 <= u
        && u <= 0x200A) || u == 0x2028 || u == 0x2029 || u == 0x202F || u == 0x205F || u
        == 0x3000
}

/// The bounds of what remains of `s[from..to]` once white space is
/// stripped from both ends.
pub fn trim_bounds(s: &Vec<char>, from: usize, to: usize) -> (bounds: (usize, usize))
    requires
        from <= to <= s.len(),
    ensures
        from <= bounds.0 <= bounds.1 <= to,
        s@.subrange(bounds.0 as int, bounds.1 as int) == trimmed(
            s@.subrange(from as int, to as int),
        ),
{
    let mut lo: usize = from;
    while lo < to && is_whitespace(s[lo])
        invariant
            from <= lo <= to <= s.len(),
            trim_start(s@.subrange(from as int, to as int)) == trim_start(
                s@.subrange(lo as int, to as int),
            ),
        decreases to - lo,
    {
        assert(s@.subrange(lo as int, to as int).drop_first() =~= s@.subrange(
            lo + 1,
            to as int,
        ));
        lo += 1;
    }
    assert(trim_start(s@.subrange(lo as int, to as int)) == s@.subrange(lo as int, to as int));
    let mut hi: usize = to;
    while lo < hi && is_whitespace(s[hi - 1])
        invariant
            lo <= hi <= to <= s.len(),
            trim_end(s@.subrange(lo as int, to as int)) == trim_end(
                s@.subrange(lo as int, hi as int),
            ),
        decreases hi - lo,
    {
        assert(s@.subrange(lo as int, hi as int).drop_last() =~= s@.subrange(
            lo as int,
            hi - 1,
        ));
        hi -= 1;
    }
    assert(trim_end(s@.subrange(lo as int, hi as int)) == s@.subrange(lo as int, hi as int));
    (lo, hi)
}

/// Tells whether `s[from..to]` is exactly `word`.
pub fn range_equals(s: &Vec<char>, from: usize, to: usize, word: &Vec<char>) -> (same: bool)
    requires
        from <= to <= s.len(),
    ensures
        same == (s@.subrange(from as int, to as int) == word@),
{
    if to - from != word.len() {
        return false;
    }
    let found = occurs_at_position(s, word, from);
    found
}

/// The code point of the lower-case form of a character.
pub fn lower_code(c: char) -> (code: u32)
    ensures
        code == ascii_lower(c) as u32,
{
    let u: u32 = c as u32;
    if 65 <= u && u <= 90 {
        u + 32
    } else {
        u
    }
}

/// Tells whether two sequences are equal once ASCII capitals are lowered.
pub fn equal_ignoring_case(a: &Vec<char>, b: &Vec<char>) -> (same: bool)
    ensures
        same == (lowered(a@) == lowered(b@)),
{
    if a.len() != b.len() {
        assert(lowered(a@).len() != lowered(b@).len());
        return false;
    }
    let mut k: usize = 0;
    while k < a.len()
        invariant
            k <= a.len(),
            a.len() == b.len(),
            forall|i: int| 0 <= i < k ==> ascii_lower(a@[i]) == ascii_lower(b@[i]),
        decreases a.len() - k,
    {
        if lower_code(a[k]) != lower_code(b[k]) {
            assert(lowered(a@)[k as int] != lowered(b@)[k as int]);
            return false;
        }
        k += 1;
    }
    assert(lowered(a@) =~= lowered(b@));
    true
}

} // verus!
