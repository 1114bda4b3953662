use vstd::prelude::*;
use vstd::string::StrSliceExecFns;
use vstd::string::StringExecFns;

verus! {

/// Character-by-character string equality, phrased over the views.
pub fn str_eq(a: &str, b: &str) -> (r: bool)
    ensures
        r == (a@ == b@),
{
    let alen = a.unicode_len();
    let blen = b.unicode_len();
    if alen != blen {
        return false;
    }
    let mut i: usize = 0;
    while i < alen
        invariant
            i <= alen,
            alen == a@.len(),
            blen == b@.len(),
            alen == blen,
            forall|j: int| 0 <= j < i ==> a@[j] == b@[j],
        decreases alen - i,
    {
        if a.get_char(i) != b.get_char(i) {
            return false;
        }
        i += 1;
    }
    proof {
        assert(a@ =~= b@);
    }
    true
}

/// `needle` occurs in `hay` starting at position `i`.
pub open spec fn matches_at(hay: Seq<char>, needle: Seq<char>, i: int) -> bool {
    &&& 0 <= i
    &&& i + needle.len() <= hay.len()
    &&& hay.subrange(i, i + needle.len()) == needle
}

/// `needle` occurs somewhere in `hay`; the empty sequence occurs everywhere.
pub open spec fn contains_seq(hay: Seq<char>, needle: Seq<char>) -> bool {
    exists|i: int| matches_at(hay, needle, i)
}

/// Whether `needle` occurs in `hay` starting at position `i`.
fn matches_here(hay: &str, needle: &str, i: usize) -> (r: bool)
    requires
        i + needle@.len() <= hay@.len(),
    ensures
        r == matches_at(hay@, needle@, i as int),
{
    let hlen = hay.unicode_len();
    let nlen = needle.unicode_len();
    let mut j: usize = 0;
    while j < nlen
        invariant
            hlen == hay@.len(),
            nlen == needle@.len(),
            i + nlen <= hlen,
            j <= nlen,
            forall|k: int| 0 <= k < j ==> hay@[i + k] == needle@[k],
        decreases nlen - j,
    {
        if hay.get_char(i + j) != needle.get_char(j) {
            proof {
                assert(hay@.subrange(i as int, i + nlen)[j as int] == hay@[i + j]);
            }
            return false;
        }
        j += 1;
    }
    proof {
        assert forall|k: int| 0 <= k < nlen implies hay@.subrange(i as int, i + nlen)[k]
            == needle@[k] by {
            assert(hay@.subrange(i as int, i + nlen)[k] == hay@[i + k]);
            assert(hay@[i + k] == needle@[k]);
        }
        assert(hay@.subrange(i as int, i + nlen) =~= needle@);
    }
    true
}

/// Substring search: whether `needle` occurs contiguously in `hay`.
pub fn str_contains(hay: &str, needle: &str) -> (r: bool)
    ensures
        r == contains_seq(hay@, needle@),
{
    let hlen = hay.unicode_len();
    let nlen = needle.unicode_len();
    if nlen > hlen {
        proof {
            assert(forall|i: int| !matches_at(hay@, needle@, i));
        }
        return false;
    }
    if nlen == 0 {
        proof {
            assert(hay@.subrange(0, 0) =~= needle@);
            assert(matches_at(hay@, needle@, 0));
        }
        return true;
    }
    let mut i: usize = 0;
    while i <= hlen - nlen
        invariant
            hlen == hay@.len(),
            nlen == needle@.len(),
            0 < nlen <= hlen,
            i <= hlen - nlen + 1,
            forall|k: int| 0 <= k < i ==> !matches_at(hay@, needle@, k),
        decreases hlen - nlen + 1 - i,
    {
        if matches_here(hay, needle, i) {
            return true;
        }
        i += 1;
    }
    proof {
        assert forall|k: int| !matches_at(hay@, needle@, k) by {
            if matches_at(hay@, needle@, k) {
                assert(0 <= k < i);
            }
        }
    }
    false
}

/// A line-terminator character.
pub open spec fn is_line_break(c: char) -> bool {
    c == '\n' || c == '\r'
}

/// `s` with every trailing line-terminator character removed.
pub open spec fn strip_line_breaks(s: Seq<char>) -> Seq<char>
    decreases s.len(),
{
    if s.len() > 0 && is_line_break(s[s.len() - 1]) {
        strip_line_breaks(s.drop_last())
    } else {
        s
    }
}

/// Whether the character just before position `end` is a line terminator.
fn line_break_before(s: &str, end: usize) -> (r: bool)
    requires
        1 <= end <= s@.len(),
    ensures
        r == is_line_break(s@[end - 1]),
{
    let c = s.get_char(end - 1);
    c == '\n' || c == '\r'
}

/// Removes every trailing line-terminator character from `s`.
pub fn strip_trailing_line_breaks(s: &str) -> (r: String)
    ensures
        r@ == strip_line_breaks(s@),
{
    let mut end = s.unicode_len();
    proof {
        assert(s@.subrange(0, s@.len() as int) =~= s@);
    }
    while end > 0 && line_break_before(s, end)
        invariant
            end <= s@.len(),
            strip_line_breaks(s@) == strip_line_breaks(s@.subrange(0, end as int)),
        decreases end,
    {
        proof {
            let prefix = s@.subrange(0, end as int);
            assert(prefix.len() == end);
            assert(prefix[end - 1] == s@[end - 1]);
            assert(prefix.drop_last() =~= s@.subrange(0, end - 1));
        }
        end -= 1;
    }
    proof {
        let prefix = s@.subrange(0, end as int);
        if end > 0 {
            assert(prefix[end - 1] == s@[end - 1]);
        }
        assert(strip_line_breaks(prefix) == prefix);
    }
    String::from_str(s.substring_char(0, end))
}

} // verus!
