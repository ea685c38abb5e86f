//! Path text handling: the final path component (basename), the segment
//! model behind it, home-directory shortening, and joining a component onto
//! a base path. Paths are plain text split on `/`; nothing touches a
//! filesystem here.

use vstd::prelude::*;
use vstd::string::StrSliceExecFns;
use vstd::string::StringExecFns;
use crate::text::spec_is_prefix;
use crate::text::starts_with_str;

verus! {

/// The trailing run of non-separator characters of `s` (empty when `s` ends
/// in `/` or is empty).
pub open spec fn spec_tail_segment(s: Seq<char>) -> Seq<char>
    decreases s.len(),
{
    if s.len() == 0 || s.last() == '/' {
        Seq::empty()
    } else {
        spec_tail_segment(s.drop_last()).push(s.last())
    }
}

pub proof fn lemma_tail_segment_len(s: Seq<char>)
    ensures
        spec_tail_segment(s).len() <= s.len(),
    decreases s.len(),
{
    if s.len() > 0 && s.last() != '/' {
        lemma_tail_segment_len(s.drop_last());
    }
}

/// The trailing segment is exactly the suffix that follows the last `/`.
pub proof fn lemma_tail_segment_chars(s: Seq<char>, i: int)
    requires
        0 <= i <= s.len(),
        forall|j: int| i <= j < s.len() ==> s[j] != '/',
        i > 0 ==> s[i - 1] == '/',
    ensures
        spec_tail_segment(s) == s.subrange(i, s.len() as int),
    decreases s.len(),
{
    if s.len() == 0 {
        assert(spec_tail_segment(s) =~= s.subrange(0, 0));
    } else if i == s.len() {
        assert(s.last() == '/');
        assert(spec_tail_segment(s) =~= s.subrange(i, s.len() as int));
    } else {
        assert(s.last() != '/');
        lemma_tail_segment_chars(s.drop_last(), i);
        assert(s.drop_last().subrange(i, s.len() - 1) =~= s.subrange(i, s.len() - 1));
        assert(s.subrange(i, s.len() - 1).push(s.last()) =~= s.subrange(i, s.len() as int));
    }
}

/// The path's component names, in order: the text split on `/`, with empty
/// pieces and bare `.` pieces dropped.
pub open spec fn spec_kept_segments(s: Seq<char>) -> Seq<Seq<char>>
    decreases s.len(),
{
    if s.len() == 0 {
        Seq::empty()
    } else if s.last() == '/' {
        spec_kept_segments(s.drop_last())
    } else {
        proof {
            lemma_tail_segment_len(s);
        }
        let seg = spec_tail_segment(s);
        let rest = spec_kept_segments(s.take(s.len() - seg.len()));
        if seg == seq!['.'] {
            rest
        } else {
            rest.push(seg)
        }
    }
}

/// The final path component: the last kept segment, unless there is none or
/// it is the parent-directory marker `..`.
pub open spec fn spec_file_name(s: Seq<char>) -> Option<Seq<char>> {
    let segs = spec_kept_segments(s);
    if segs.len() == 0 || segs.last() == seq!['.', '.'] {
        None
    } else {
        Some(segs.last())
    }
}

/// The basename shown on the status line: the final path component, or the
/// `"?"` placeholder when the path has none.
pub open spec fn spec_dir_basename(s: Seq<char>) -> Seq<char> {
    match spec_file_name(s) {
        Some(t) => t,
        None => "?"@,
    }
}

/// Index of the first character of the trailing segment.
fn seg_start(s: &str) -> (r: usize)
    requires
        s@.len() > 0,
        s@[s@.len() - 1] != '/',
    ensures
        r < s@.len(),
        forall|j: int| r <= j < s@.len() ==> s@[j] != '/',
        r > 0 ==> s@[r - 1] == '/',
{
    let n: usize = s.unicode_len();
    let mut i: usize = n;
    while i > 0 && s.get_char(i - 1) != '/'
        invariant
            0 <= i <= n,
            n == s@.len(),
            forall|j: int| i <= j < n ==> s@[j] != '/',
        decreases i,
    {
        i -= 1;
    }
    proof {
        assert(s@[s@.len() - 1] != '/');
    }
    i
}

/// Whether the segment is the current-directory marker `.`.
fn is_dot_str(s: &str) -> (r: bool)
    ensures
        r == (s@ == seq!['.']),
{
    let n: usize = s.unicode_len();
    if n == 1 && s.get_char(0) == '.' {
        proof {
            assert(s@ =~= seq!['.']);
        }
        true
    } else {
        false
    }
}

/// Whether the segment is the parent-directory marker `..`.
fn is_dotdot_str(s: &str) -> (r: bool)
    ensures
        r == (s@ == seq!['.', '.']),
{
    let n: usize = s.unicode_len();
    if n == 2 && s.get_char(0) == '.' && s.get_char(1) == '.' {
        proof {
            assert(s@ =~= seq!['.', '.']);
        }
        true
    } else {
        false
    }
}

/// The kept segments of `s`, as owned strings.
fn kept_segments(s: &str) -> (r: Vec<String>)
    ensures
        r.deep_view() == spec_kept_segments(s@),
    decreases s@.len(),
{
    let n: usize = s.unicode_len();
    if n == 0 {
        let r: Vec<String> = Vec::new();
        proof {
            assert(r.deep_view() =~= spec_kept_segments(s@));
        }
        r
    } else if s.get_char(n - 1) == '/' {
        proof {
            assert(s@.subrange(0, n - 1) =~= s@.drop_last());
        }
        kept_segments(s.substring_char(0, n - 1))
    } else {
        let start: usize = seg_start(s);
        let seg: &str = s.substring_char(start, n);
        proof {
            lemma_tail_segment_chars(s@, start as int);
        }
        let mut r = kept_segments(s.substring_char(0, start));
        if is_dot_str(seg) {
            r
        } else {
            let ghost pre = r.deep_view();
            r.push(seg.to_owned());
            proof {
                assert(r.deep_view() =~= pre.push(seg@));
            }
            r
        }
    }
}

/// The final path component, when the path has one.
pub fn file_name_opt(s: &str) -> (r: Option<String>)
    ensures
        r.deep_view() == spec_file_name(s@),
{
    let segs = kept_segments(s);
    if segs.len() == 0 {
        None
    } else {
        let last: &String = &segs[segs.len() - 1];
        proof {
            assert(segs.deep_view().last() == last@);
        }
        if is_dotdot_str(last.as_str()) {
            None
        } else {
            Some(last.clone())
        }
    }
}

/// The final path component, or `"?"` for a path that has none (empty, a
/// root path, or one ending in `..`).
pub fn dir_basename(cwd: &str) -> (r: String)
    ensures
        r@ == spec_dir_basename(cwd@),
{
    match file_name_opt(cwd) {
        Some(name) => name,
        None => "?".to_owned(),
    }
}

/// The component three levels above the trailing one: the final component
/// left after walking up three times, when the path is that deep.
pub open spec fn spec_third_parent_name(s: Seq<char>) -> Option<Seq<char>> {
    let segs = spec_kept_segments(s);
    if segs.len() >= 4 && segs[segs.len() - 4] != seq!['.', '.'] {
        Some(segs[segs.len() - 4])
    } else {
        None
    }
}

/// The final component after walking three levels up from `s`.
pub fn third_parent_name(s: &str) -> (r: Option<String>)
    ensures
        r.deep_view() == spec_third_parent_name(s@),
{
    let segs = kept_segments(s);
    if segs.len() >= 4 {
        let cand: &String = &segs[segs.len() - 4];
        proof {
            assert(segs.deep_view()[segs@.len() - 4] == cand@);
        }
        if is_dotdot_str(cand.as_str()) {
            None
        } else {
            Some(cand.clone())
        }
    } else {
        None
    }
}

/// The path with the home prefix replaced by `~`; unchanged when no home is
/// known or the path lies elsewhere.
pub open spec fn spec_shorten_path(path: Seq<char>, home: Option<Seq<char>>) -> Seq<char> {
    match home {
        Some(h) => if spec_is_prefix(h, path) {
            seq!['~'] + path.skip(h.len() as int)
        } else {
            path
        },
        None => path,
    }
}

/// Replaces a leading home-directory prefix with `~`.
pub fn shorten_path(path: &str, home: Option<&str>) -> (r: String)
    ensures
        r@ == spec_shorten_path(path@, home.deep_view()),
{
    match home {
        Some(h) => {
            if starts_with_str(path, h) {
                let tail: &str = path.substring_char(h.unicode_len(), path.unicode_len());
                let mut out: String = "~".to_owned();
                out.append(tail);
                proof {
                    reveal_strlit("~");
                    assert("~"@ =~= seq!['~']);
                }
                out
            } else {
                path.to_owned()
            }
        },
        None => path.to_owned(),
    }
}

/// `base` and `leaf` joined with a single `/`: the leaf alone when the base
/// is empty, and no separator doubled when the base already ends in one.
pub open spec fn spec_path_join(base: Seq<char>, leaf: Seq<char>) -> Seq<char> {
    if base.len() == 0 {
        leaf
    } else if base.last() == '/' {
        base + leaf
    } else {
        base + seq!['/'] + leaf
    }
}

/// Appends one component to a base path.
pub fn path_join(base: &str, leaf: &str) -> (r: String)
    ensures
        r@ == spec_path_join(base@, leaf@),
{
    let n: usize = base.unicode_len();
    if n == 0 {
        leaf.to_owned()
    } else if base.get_char(n - 1) == '/' {
        let mut out: String = base.to_owned();
        out.append(leaf);
        out
    } else {
        let mut out: String = base.to_owned();
        out.append("/");
        out.append(leaf);
        proof {
            reveal_strlit("/");
            assert(base@ + "/"@ =~= base@ + seq!['/']);
        }
        out
    }
}

} // verus!
