//! Character-level string utilities: prefix tests, prefix stripping, and
//! whitespace trimming, each against a sequence-level specification.

use vstd::prelude::*;
use vstd::string::StrSliceExecFns;

verus! {

/// `p` is a prefix of `s`.
pub open spec fn spec_is_prefix(p: Seq<char>, s: Seq<char>) -> bool {
    p.len() <= s.len() && s.subrange(0, p.len() as int) == p
}

/// Whether `p` is a prefix of `s`, compared character by character.
pub fn starts_with_str(s: &str, p: &str) -> (r: bool)
    ensures
        r == spec_is_prefix(p@, s@),
{
    let n: usize = p.unicode_len();
    let m: usize = s.unicode_len();
    if n > m {
        return false;
    }
    let mut i: usize = 0;
    while i < n
        invariant
            0 <= i <= n <= m,
            n == p@.len(),
            m == s@.len(),
            forall|j: int| 0 <= j < i ==> s@[j] == p@[j],
        decreases n - i,
    {
        if s.get_char(i) != p.get_char(i) {
            proof {
                assert(s@.subrange(0, n as int)[i as int] != p@[i as int]);
            }
            return false;
        }
        i += 1;
    }
    proof {
        assert(s@.subrange(0, n as int) =~= p@);
    }
    true
}

/// The rest of `s` after the prefix `p`, or nothing when `p` is no prefix.
pub fn strip_prefix_str<'a>(s: &'a str, p: &str) -> (r: Option<&'a str>)
    ensures
        (match r {
            Some(t) => spec_is_prefix(p@, s@) && t@ == s@.skip(p@.len() as int),
            None => !spec_is_prefix(p@, s@),
        }),
{
    if starts_with_str(s, p) {
        Some(s.substring_char(p.unicode_len(), s.unicode_len()))
    } else {
        None
    }
}

/// The characters that `trim` removes: the Unicode white-space set.
pub open spec fn spec_is_space(c: char) -> bool {
    c == ' ' || c == '\t' || c == '\n' || c == '\u{b}' || c == '\u{c}' || c == '\r' || c
        == '\u{85}' || c == '\u{a0}' || c == '\u{1680}' || c == '\u{2000}' || c == '\u{2001}' || c
        == '\u{2002}' || c == '\u{2003}' || c == '\u{2004}' || c == '\u{2005}' || c == '\u{2006}'
        || c == '\u{2007}' || c == '\u{2008}' || c == '\u{2009}' || c == '\u{200a}' || c
        == '\u{2028}' || c == '\u{2029}' || c == '\u{202f}' || c == '\u{205f}' || c == '\u{3000}'
}

/// Whether `c` is white space in the sense of `spec_is_space`.
pub fn is_space(c: char) -> (r: bool)
    ensures
        r == spec_is_space(c),
{
    c == ' ' || c == '\t' || c == '\n' || c == '\u{b}' || c == '\u{c}' || c == '\r' || c
        == '\u{85}' || c == '\u{a0}' || c == '\u{1680}' || c == '\u{2000}' || c == '\u{2001}' || c
        == '\u{2002}' || c == '\u{2003}' || c == '\u{2004}' || c == '\u{2005}' || c == '\u{2006}'
        || c == '\u{2007}' || c == '\u{2008}' || c == '\u{2009}' || c == '\u{200a}' || c
        == '\u{2028}' || c == '\u{2029}' || c == '\u{202f}' || c == '\u{205f}' || c == '\u{3000}'
}

/// `s` with leading white space removed.
pub open spec fn spec_trim_front(s: Seq<char>) -> Seq<char>
    decreases s.len(),
{
    if s.len() > 0 && spec_is_space(s[0]) {
        spec_trim_front(s.skip(1))
    } else {
        s
    }
}

/// `s` with trailing white space removed.
pub open spec fn spec_trim_back(s: Seq<char>) -> Seq<char>
    decreases s.len(),
{
    if s.len() > 0 && spec_is_space(s.last()) {
        spec_trim_back(s.drop_last())
    } else {
        s
    }
}

/// `s` with white space removed at both ends.
pub open spec fn spec_trim(s: Seq<char>) -> Seq<char> {
    spec_trim_back(spec_trim_front(s))
}

fn trim_front(s: &str) -> (r: &str)
    ensures
        r@ == spec_trim_front(s@),
    decreases s@.len(),
{
    let n: usize = s.unicode_len();
    if n > 0 && is_space(s.get_char(0)) {
        trim_front(s.substring_char(1, n))
    } else {
        s
    }
}

fn trim_back(s: &str) -> (r: &str)
    ensures
        r@ == spec_trim_back(s@),
    decreases s@.len(),
{
    let n: usize = s.unicode_len();
    if n > 0 && is_space(s.get_char(n - 1)) {
        proof {
            assert(s@.subrange(0, n - 1) =~= s@.drop_last());
        }
        trim_back(s.substring_char(0, n - 1))
    } else {
        s
    }
}

/// `s` with white space removed at both ends.
pub fn trim_str(s: &str) -> (r: &str)
    ensures
        r@ == spec_trim(s@),
{
    trim_back(trim_front(s))
}

} // verus!
