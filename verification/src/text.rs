//! Verified text utilities the handlers and widgets share: the whitespace
//! predicate, trimming, and splitting on commas.

use vstd::prelude::*;
use vstd::string::*;

verus! {

/// The Unicode whitespace characters, as `char::is_whitespace` reports them.
pub open spec fn is_space_char(c: char) -> bool {
    c == ' ' || c == '\t' || c == '\n' || c == '\r' || c == '\u{0b}' || c == '\u{0c}' || c
        == '\u{85}' || c == '\u{a0}' || c == '\u{1680}' || c == '\u{2000}' || c == '\u{2001}' || c
        == '\u{2002}' || c == '\u{2003}' || c == '\u{2004}' || c == '\u{2005}' || c == '\u{2006}'
        || c == '\u{2007}' || c == '\u{2008}' || c == '\u{2009}' || c == '\u{200a}' || c
        == '\u{2028}' || c == '\u{2029}' || c == '\u{202f}' || c == '\u{205f}' || c == '\u{3000}'
}

pub fn space_char(c: char) -> (r: bool)
    ensures
        r == is_space_char(c),
{
    c == ' ' || c == '\t' || c == '\n' || c == '\r' || c == '\u{0b}' || c == '\u{0c}' || c
        == '\u{85}' || c == '\u{a0}' || c == '\u{1680}' || c == '\u{2000}' || c == '\u{2001}' || c
        == '\u{2002}' || c == '\u{2003}' || c == '\u{2004}' || c == '\u{2005}' || c == '\u{2006}'
        || c == '\u{2007}' || c == '\u{2008}' || c == '\u{2009}' || c == '\u{200a}' || c
        == '\u{2028}' || c == '\u{2029}' || c == '\u{202f}' || c == '\u{205f}' || c == '\u{3000}'
}

/// Whether a string holds nothing but whitespace.
pub open spec fn is_blank(s: Seq<char>) -> bool {
    forall|i: int| 0 <= i < s.len() ==> is_space_char(s[i])
}

/// The string with its leading whitespace removed.
pub open spec fn trim_front(s: Seq<char>) -> Seq<char>
    decreases s.len(),
{
    if s.len() > 0 && is_space_char(s[0]) {
        trim_front(s.subrange(1, s.len() as int))
    } else {
        s
    }
}

/// The string with its trailing whitespace removed.
pub open spec fn trim_back(s: Seq<char>) -> Seq<char>
    decreases s.len(),
{
    if s.len() > 0 && is_space_char(s.last()) {
        trim_back(s.drop_last())
    } else {
        s
    }
}

/// The string with whitespace removed from both ends, as `str::trim` leaves
/// it.
pub open spec fn spec_trim(s: Seq<char>) -> Seq<char> {
    trim_back(trim_front(s))
}

/// A whitespace-only prefix does not affect the front trim.
proof fn lemma_trim_front_skip(s: Seq<char>, i: int)
    requires
        0 <= i <= s.len(),
        forall|j: int| 0 <= j < i ==> is_space_char(s[j]),
    ensures
        trim_front(s) == trim_front(s.subrange(i, s.len() as int)),
    decreases i,
{
    if i > 0 {
        let rest = s.subrange(1, s.len() as int);
        lemma_trim_front_skip(rest, i - 1);
        assert(rest.subrange(i - 1, rest.len() as int) == s.subrange(i, s.len() as int));
    } else {
        assert(s.subrange(0, s.len() as int) == s);
    }
}

/// A whitespace-only suffix does not affect the back trim.
proof fn lemma_trim_back_take(s: Seq<char>, h: int)
    requires
        0 <= h <= s.len(),
        forall|j: int| h <= j < s.len() ==> is_space_char(s[j]),
    ensures
        trim_back(s) == trim_back(s.take(h)),
    decreases s.len() - h,
{
    if h < s.len() {
        lemma_trim_back_take(s.drop_last(), h);
        assert(s.drop_last().take(h) == s.take(h));
    } else {
        assert(s.take(h) == s);
    }
}

/// Remove leading and trailing whitespace.
pub fn trim_str(s: &str) -> (r: &str)
    ensures
        r@ == spec_trim(s@),
{
    let n = s.unicode_len();
    let mut lo: usize = 0;
    while lo < n && space_char(s.get_char(lo))
        invariant
            0 <= lo <= n == s@.len(),
            forall|j: int| 0 <= j < lo ==> is_space_char(s@[j]),
        decreases n - lo,
    {
        lo += 1;
    }
    proof {
        lemma_trim_front_skip(s@, lo as int);
    }
    if lo == n {
        let empty = s.substring_char(n, n);
        proof {
            assert(s@.subrange(lo as int, n as int).len() == 0);
            assert(trim_back(trim_front(s@)).len() == 0);
            assert(empty@ =~= spec_trim(s@));
        }
        return empty;
    }
    let ghost front = s@.subrange(lo as int, n as int);
    proof {
        assert(!is_space_char(front[0]));
        assert(trim_front(s@) == front);
    }
    let mut hi: usize = n;
    while hi > lo + 1 && space_char(s.get_char(hi - 1))
        invariant
            lo < hi <= n == s@.len(),
            forall|j: int| hi <= j < n ==> is_space_char(s@[j]),
        decreases hi,
    {
        hi -= 1;
    }
    proof {
        if hi == lo + 1 {
            assert(s@[hi - 1] == front[0]);
        }
        assert(!is_space_char(s@[hi - 1]));
        assert forall|j: int| (hi - lo) <= j < front.len() implies is_space_char(front[j]) by {
            assert(front[j] == s@[j + lo]);
        }
        lemma_trim_back_take(front, hi - lo);
        let taken = front.take(hi - lo);
        assert(taken.len() > 0);
        assert(taken.last() == s@[hi - 1]);
        assert(trim_back(taken) == taken);
        assert(taken == s@.subrange(lo as int, hi as int));
    }
    s.substring_char(lo, hi)
}

/// The segments of a string between its commas, in order; a string with no
/// comma is one segment, and every comma separates two (possibly empty)
/// segments.
pub open spec fn spec_segments(s: Seq<char>) -> Seq<Seq<char>>
    decreases s.len(),
{
    if s.len() == 0 {
        seq![Seq::<char>::empty()]
    } else {
        let prev = spec_segments(s.drop_last());
        if s.last() == ',' {
            prev.push(Seq::<char>::empty())
        } else {
            prev.update(prev.len() - 1, prev.last().push(s.last()))
        }
    }
}

/// There is always at least one segment.
pub proof fn lemma_segments_nonempty(s: Seq<char>)
    ensures
        spec_segments(s).len() >= 1,
    decreases s.len(),
{
    if s.len() > 0 {
        lemma_segments_nonempty(s.drop_last());
    }
}

/// Split a string on commas.
pub fn split_commas(s: &str) -> (r: Vec<String>)
    ensures
        r@.len() == spec_segments(s@).len(),
        forall|i: int| 0 <= i < r@.len() ==> r@[i]@ == spec_segments(s@)[i],
{
    let mut parts: Vec<String> = Vec::new();
    parts.push(String::new());
    let n = s.unicode_len();
    let mut i: usize = 0;
    proof {
        assert(s@.take(0) == Seq::<char>::empty());
        assert(parts@[0]@ == spec_segments(s@.take(0))[0]);
    }
    while i < n
        invariant
            0 <= i <= n == s@.len(),
            parts@.len() >= 1,
            parts@.len() == spec_segments(s@.take(i as int)).len(),
            forall|j: int| 0 <= j < parts@.len() ==> parts@[j]@ == spec_segments(s@.take(i as int))[j],
        decreases n - i,
    {
        let ghost segs_pre = spec_segments(s@.take(i as int));
        proof {
            assert(s@.take(i + 1).drop_last() == s@.take(i as int));
            assert(s@.take(i + 1).last() == s@[i as int]);
            lemma_segments_nonempty(s@.take(i as int));
        }
        let c = s.get_char(i);
        if c == ',' {
            parts.push(String::new());
        } else {
            let piece = s.substring_char(i, i + 1);
            proof {
                assert(piece@ =~= seq![s@[i as int]]);
            }
            let mut last = match parts.pop() {
                Some(p) => p,
                None => String::new(),
            };
            last.append(piece);
            parts.push(last);
            proof {
                let segs_post = spec_segments(s@.take(i + 1));
                assert(segs_post == segs_pre.update(
                    segs_pre.len() - 1,
                    segs_pre.last().push(s@[i as int]),
                ));
                assert(segs_pre.last().push(s@[i as int]) =~= segs_pre.last() + seq![
                    s@[i as int],
                ]);
            }
        }
        i += 1;
    }
    proof {
        assert(s@.take(n as int) == s@);
    }
    parts
}

} // verus!
