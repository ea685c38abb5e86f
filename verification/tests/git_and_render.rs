use statusline::context::ContextWindow;
use statusline::cost::Cost;
use statusline::gitmeta::find_git_branch;
use statusline::gitmeta::find_git_repo_name;
use statusline::gitmeta::find_gitdir;
use statusline::gitmeta::gitdir_from_redirect;
use statusline::gitmeta::GitEntryKind;
use statusline::model::Model;
use statusline::render::render_lines;
use statusline::render::repo_label;
use statusline::render::Snapshot;

#[test]
fn redirect_parsing_trims_and_strips_prefix() {
    assert_eq!(
        gitdir_from_redirect("gitdir: /path/to/main/.git/worktrees/wt\n"),
        Some("/path/to/main/.git/worktrees/wt".to_string())
    );
    assert_eq!(
        gitdir_from_redirect("  gitdir: /x  \n"),
        Some("/x".to_string())
    );
    assert_eq!(gitdir_from_redirect("no marker here"), None);
    assert_eq!(gitdir_from_redirect(""), None);
}

#[test]
fn gitdir_of_ordinary_repo_is_dot_git() {
    assert_eq!(
        find_gitdir(GitEntryKind::Dir, "/a/b", None),
        Some("/a/b/.git".to_string())
    );
    assert_eq!(find_gitdir(GitEntryKind::Absent, "/a/b", None), None);
    assert_eq!(
        find_gitdir(GitEntryKind::File, "/a/b", Some("gitdir: /m/.git/worktrees/w")),
        Some("/m/.git/worktrees/w".to_string())
    );
    assert_eq!(find_gitdir(GitEntryKind::File, "/a/b", None), None);
}

#[test]
fn repo_name_of_worktree_walks_to_main_repo() {
    assert_eq!(
        find_git_repo_name(
            GitEntryKind::File,
            "/somewhere/wt",
            Some("gitdir: /path/to/main-repo/.git/worktrees/wt\n"),
        ),
        Some("main-repo".to_string())
    );
    // A redirect too shallow to hold a repository above it gives nothing.
    assert_eq!(
        find_git_repo_name(GitEntryKind::File, "/somewhere/wt", Some("gitdir: /a/b/c")),
        None
    );
}

#[test]
fn repo_name_of_ordinary_repo_is_cwd_basename() {
    assert_eq!(
        find_git_repo_name(GitEntryKind::Dir, "/foo/bar", None),
        Some("bar".to_string())
    );
    assert_eq!(find_git_repo_name(GitEntryKind::Dir, "/", None), None);
    assert_eq!(find_git_repo_name(GitEntryKind::Absent, "/foo/bar", None), None);
}

#[test]
fn branch_comes_from_head_reference() {
    assert_eq!(
        find_git_branch(Some("ref: refs/heads/main\n")),
        Some("main".to_string())
    );
    assert_eq!(
        find_git_branch(Some("ref: refs/heads/feature/x")),
        Some("feature/x".to_string())
    );
    // A detached HEAD holds a bare commit id.
    assert_eq!(find_git_branch(Some("3f785a0c9\n")), None);
    assert_eq!(find_git_branch(None), None);
}

#[test]
fn label_prefers_repo_and_branch() {
    assert_eq!(
        repo_label(Some("repo".to_string()), Some("main".to_string()), "/x/y"),
        "repo:main".to_string()
    );
    assert_eq!(repo_label(Some("repo".to_string()), None, "/x/y"), "repo".to_string());
    assert_eq!(repo_label(None, None, "/x/y"), "y".to_string());
    // A branch with no repository name falls back to the basename alone.
    assert_eq!(repo_label(None, Some("main".to_string()), "/x/y"), "y".to_string());
}

fn sample_snapshot() -> Snapshot {
    Snapshot {
        model: Model {
            id: "iris-mini".to_string(),
            display_name: "Iris 4.5".to_string(),
        },
        cost: Cost { total_micro_usd: 4_600_000 },
        cwd: "/home/alice/proj".to_string(),
        context_window: ContextWindow {
            context_window_size: 100_000,
            used_ppm: 500_000,
        },
    }
}

#[test]
fn render_produces_the_documented_two_lines() {
    let snap = sample_snapshot();
    let (first, second) = render_lines(
        &snap,
        Some("/home/alice"),
        Some("proj".to_string()),
        Some("main".to_string()),
        123,
    );
    assert_eq!(first, "[Iris 4.5] $5 - [proj:main] - 50k/100k (50%) - 123us");
    assert_eq!(second, "~/proj");
}

#[test]
fn render_twice_yields_identical_output() {
    let snap_a = sample_snapshot();
    let snap_b = sample_snapshot();
    let lines_a = render_lines(&snap_a, Some("/home/alice"), None, None, 55);
    let lines_b = render_lines(&snap_b, Some("/home/alice"), None, None, 55);
    assert_eq!(lines_a, lines_b);
}

#[test]
fn default_snapshot_renders_placeholder_line() {
    let snap = Snapshot::default();
    let (first, second) = render_lines(&snap, None, None, None, 7);
    assert_eq!(first, "[?] $0 - [?] - 0k/200k (0%) - 7us");
    assert_eq!(second, "");
}

#[test]
fn malformed_json_and_empty_input_agree() {
    // Truncated JSON and empty input both fail to decode, so both fall back
    // to the default snapshot and render the same lines.
    let malformed = serde_json::from_str::<serde_json::Value>("{\"model\": {");
    let empty = serde_json::from_str::<serde_json::Value>("");
    assert!(malformed.is_err());
    assert!(empty.is_err());
    let from_malformed = render_lines(&Snapshot::default(), None, None, None, 0);
    let from_empty = render_lines(&Snapshot::default(), None, None, None, 0);
    assert_eq!(from_malformed, from_empty);
}

#[test]
fn fields_render_exactly() {
    assert_eq!(statusline::render::cost_field(5), "$5".to_string());
    assert_eq!(statusline::render::cost_field(0), "$0".to_string());
    assert_eq!(
        statusline::render::usage_field(50, 100, 50),
        "50k/100k (50%)".to_string()
    );
    assert_eq!(statusline::render::elapsed_field(123), "123us".to_string());
}

#[test]
fn extreme_values_saturate_without_failing() {
    let ctx = ContextWindow {
        context_window_size: u64::MAX,
        used_ppm: i64::MAX,
    };
    let (used_k, max_k, _) = ctx.stats();
    assert_eq!(used_k, u64::MAX);
    assert_eq!(max_k, 18_446_744_073_709_552);
    assert_eq!(
        statusline::context::rounded_percent(i64::MIN),
        -922_337_203_685_478
    );
}
