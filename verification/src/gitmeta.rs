//! Git metadata text handling: resolving the git directory from what was
//! found at `<cwd>/.git`, the main repository name, and the branch named by
//! a `HEAD` reference. Callers hand in what they read from disk; everything
//! here is a pure function of that text.

use vstd::prelude::*;
use crate::text::spec_trim;
use crate::text::spec_is_prefix;
use crate::text::trim_str;
use crate::text::strip_prefix_str;
use crate::paths::spec_path_join;
use crate::paths::spec_file_name;
use crate::paths::spec_third_parent_name;
use crate::paths::path_join;
use crate::paths::file_name_opt;
use crate::paths::third_parent_name;

verus! {

/// What the caller found at `<cwd>/.git`: a regular file (a worktree's
/// redirect), a directory (an ordinary repository), or nothing.
#[derive(Clone, Copy)]
pub enum GitEntryKind {
    File,
    Dir,
    Absent,
}

/// The git directory named by a worktree redirect file: the trimmed content
/// after the `gitdir: ` prefix, or nothing when the prefix is missing.
pub open spec fn spec_gitdir_from_redirect(content: Seq<char>) -> Option<Seq<char>> {
    let t = spec_trim(content);
    if spec_is_prefix("gitdir: "@, t) {
        Some(t.skip("gitdir: "@.len() as int))
    } else {
        None
    }
}

/// Parses a worktree redirect file's content.
pub fn gitdir_from_redirect(content: &str) -> (r: Option<String>)
    ensures
        r.deep_view() == spec_gitdir_from_redirect(content@),
{
    let t = trim_str(content);
    match strip_prefix_str(t, "gitdir: ") {
        Some(rest) => Some(rest.to_owned()),
        None => None,
    }
}

/// The path of the git directory, given what `<cwd>/.git` was and, for a
/// redirect file, its content (nothing when the read failed).
pub open spec fn spec_find_gitdir(
    kind: GitEntryKind,
    cwd: Seq<char>,
    redirect: Option<Seq<char>>,
) -> Option<Seq<char>> {
    match kind {
        GitEntryKind::File => match redirect {
            Some(c) => spec_gitdir_from_redirect(c),
            None => None,
        },
        GitEntryKind::Dir => Some(spec_path_join(cwd, ".git"@)),
        GitEntryKind::Absent => None,
    }
}

/// The git directory for the working directory: the redirect's target for a
/// worktree, `<cwd>/.git` for an ordinary repository, nothing otherwise.
pub fn find_gitdir(kind: GitEntryKind, cwd: &str, redirect: Option<&str>) -> (r: Option<String>)
    ensures
        r.deep_view() == spec_find_gitdir(kind, cwd@, redirect.deep_view()),
{
    match kind {
        GitEntryKind::File => match redirect {
            Some(c) => gitdir_from_redirect(c),
            None => None,
        },
        GitEntryKind::Dir => Some(path_join(cwd, ".git")),
        GitEntryKind::Absent => None,
    }
}

/// The main repository's name. For a worktree the redirect target looks like
/// `<repo>/.git/worktrees/<name>`, so the name sits three levels above the
/// target's final component; for an ordinary repository it is the working
/// directory's own final component.
pub open spec fn spec_find_git_repo_name(
    kind: GitEntryKind,
    cwd: Seq<char>,
    redirect: Option<Seq<char>>,
) -> Option<Seq<char>> {
    match kind {
        GitEntryKind::File => match redirect {
            Some(c) => match spec_gitdir_from_redirect(c) {
                Some(g) => spec_third_parent_name(g),
                None => None,
            },
            None => None,
        },
        GitEntryKind::Dir => spec_file_name(cwd),
        GitEntryKind::Absent => None,
    }
}

/// Resolves the main repository's name, when there is one.
pub fn find_git_repo_name(kind: GitEntryKind, cwd: &str, redirect: Option<&str>) -> (r: Option<
    String,
>)
    ensures
        r.deep_view() == spec_find_git_repo_name(kind, cwd@, redirect.deep_view()),
{
    match kind {
        GitEntryKind::File => match redirect {
            Some(c) => match gitdir_from_redirect(c) {
                Some(g) => third_parent_name(g.as_str()),
                None => None,
            },
            None => None,
        },
        GitEntryKind::Dir => file_name_opt(cwd),
        GitEntryKind::Absent => None,
    }
}

/// The branch a `HEAD` file names: the trimmed content after the
/// `ref: refs/heads/` prefix, or nothing for a detached or unreadable HEAD.
pub open spec fn spec_branch_from_head(content: Seq<char>) -> Option<Seq<char>> {
    let t = spec_trim(content);
    if spec_is_prefix("ref: refs/heads/"@, t) {
        Some(t.skip("ref: refs/heads/"@.len() as int))
    } else {
        None
    }
}

/// The current branch name, given the content of the git directory's `HEAD`
/// file (nothing when it could not be read).
pub fn find_git_branch(head: Option<&str>) -> (r: Option<String>)
    ensures
        r.deep_view() == (match head.deep_view() {
            Some(c) => spec_branch_from_head(c),
            None => None::<Seq<char>>,
        }),
{
    match head {
        Some(content) => {
            let t = trim_str(content);
            match strip_prefix_str(t, "ref: refs/heads/") {
                Some(rest) => Some(rest.to_owned()),
                None => None,
            }
        },
        None => None,
    }
}

} // verus!
