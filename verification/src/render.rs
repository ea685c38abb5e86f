//! The line formatter: composes the two plain-text status lines, field by
//! field, in the fixed order of the presentation contract. Styling is a
//! cosmetic layer that callers may add around the fields; the plain text
//! here is the contract.

use vstd::prelude::*;
use vstd::string::StrSliceExecFns;
use vstd::string::StringExecFns;
use crate::model::Model;
use crate::model::spec_model_name;
use crate::cost::Cost;
use crate::cost::spec_cost_rounded;
use crate::context::ContextWindow;
use crate::context::spec_used_k;
use crate::context::spec_max_k;
use crate::context::spec_rounded_percent;
use crate::context::rounded_percent;
use crate::paths::spec_dir_basename;
use crate::paths::spec_shorten_path;
use crate::paths::dir_basename;
use crate::paths::shorten_path;
use crate::numfmt::spec_nat_digits;
use crate::numfmt::spec_int_digits;
use crate::numfmt::u64_string;
use crate::numfmt::i64_string;

verus! {

/// One decoded session snapshot: everything the status line is derived
/// from. Every field has a default, so a snapshot exists for any input.
pub struct Snapshot {
    pub model: Model,
    pub cost: Cost,
    pub cwd: String,
    pub context_window: ContextWindow,
}

impl Default for Snapshot {
    /// The fully-default snapshot, produced for empty or malformed input:
    /// empty model identity, zero cost, empty working directory, default
    /// context window.
    fn default() -> (r: Snapshot)
        ensures
            r.model.id@ == Seq::<char>::empty(),
            r.model.display_name@ == Seq::<char>::empty(),
            r.cost.total_micro_usd == 0,
            r.cwd@ == Seq::<char>::empty(),
            r.context_window.context_window_size == 0,
            r.context_window.used_ppm == 0,
    {
        Snapshot {
            model: Model::default(),
            cost: Cost::default(),
            cwd: String::new(),
            context_window: ContextWindow::default(),
        }
    }
}

/// The repository label: `<name>:<branch>` when both resolved, the name
/// alone when only it resolved, and the working directory's plain basename
/// when no repository name resolved (a branch without a name is dropped).
pub open spec fn spec_repo_label(
    repo_name: Option<Seq<char>>,
    branch: Option<Seq<char>>,
    cwd: Seq<char>,
) -> Seq<char> {
    match repo_name {
        Some(name) => match branch {
            Some(b) => name + seq![':'] + b,
            None => name,
        },
        None => spec_dir_basename(cwd),
    }
}

/// Composes the bracketed repository/branch-or-directory label.
pub fn repo_label(repo_name: Option<String>, branch: Option<String>, cwd: &str) -> (r: String)
    ensures
        r@ == spec_repo_label(repo_name.deep_view(), branch.deep_view(), cwd@),
{
    match repo_name {
        Some(name) => match branch {
            Some(b) => {
                let mut out = name;
                out.append(":");
                out.append(b.as_str());
                proof {
                    reveal_strlit(":");
                    assert(":"@ =~= seq![':']);
                }
                out
            },
            None => name,
        },
        None => dir_basename(cwd),
    }
}

/// The cost field: a dollar sign before the rounded amount.
pub open spec fn spec_cost_field(cost: int) -> Seq<char> {
    "$"@ + spec_int_digits(cost)
}

/// Renders the cost field, `$<cost>`.
pub fn cost_field(cost: i64) -> (r: String)
    ensures
        r@ == spec_cost_field(cost as int),
{
    let mut out: String = "$".to_owned();
    let digits = i64_string(cost);
    out.append(digits.as_str());
    out
}

/// The token-usage field: `<usedK>k/<maxK>k (<pct>%)`.
pub open spec fn spec_usage_field(used_k: int, max_k: int, pct: int) -> Seq<char> {
    spec_nat_digits(used_k) + "k/"@ + spec_nat_digits(max_k) + "k ("@ + spec_int_digits(pct)
        + "%)"@
}

/// Renders the token-usage field.
pub fn usage_field(used_k: u64, max_k: u64, pct: i64) -> (r: String)
    ensures
        r@ == spec_usage_field(used_k as int, max_k as int, pct as int),
{
    let mut out = u64_string(used_k);
    out.append("k/");
    let max_digits = u64_string(max_k);
    out.append(max_digits.as_str());
    out.append("k (");
    let pct_digits = i64_string(pct);
    out.append(pct_digits.as_str());
    out.append("%)");
    out
}

/// The elapsed-time field: the microsecond count and its unit.
pub open spec fn spec_elapsed_field(us: int) -> Seq<char> {
    spec_nat_digits(us) + "us"@
}

/// Renders the elapsed-time field, `<elapsed>us`.
pub fn elapsed_field(elapsed_us: u64) -> (r: String)
    ensures
        r@ == spec_elapsed_field(elapsed_us as int),
{
    let mut out = u64_string(elapsed_us);
    out.append("us");
    out
}

/// The primary line up to, but not including, the elapsed-time field:
/// bracketed model name, cost, bracketed label, and token usage, joined by
/// the fixed separators.
pub open spec fn spec_primary_body(
    name: Seq<char>,
    cost: int,
    label: Seq<char>,
    used_k: int,
    max_k: int,
    pct: int,
) -> Seq<char> {
    "["@ + name + "] "@ + spec_cost_field(cost) + " - ["@ + label + "] - "@ + spec_usage_field(
        used_k,
        max_k,
        pct,
    ) + " - "@
}

/// The whole primary line: the body followed by the elapsed-time field.
pub open spec fn spec_primary_line(
    name: Seq<char>,
    cost: int,
    label: Seq<char>,
    used_k: int,
    max_k: int,
    pct: int,
    us: int,
) -> Seq<char> {
    spec_primary_body(name, cost, label, used_k, max_k, pct) + spec_elapsed_field(us)
}

/// Renders the primary status line from already-derived display values.
pub fn primary_line(
    name: &str,
    cost: i64,
    label: &str,
    used_k: u64,
    max_k: u64,
    pct: i64,
    elapsed_us: u64,
) -> (r: String)
    ensures
        r@ == spec_primary_line(
            name@,
            cost as int,
            label@,
            used_k as int,
            max_k as int,
            pct as int,
            elapsed_us as int,
        ),
{
    let mut out: String = "[".to_owned();
    out.append(name);
    out.append("] ");
    let cost_text = cost_field(cost);
    out.append(cost_text.as_str());
    out.append(" - [");
    out.append(label);
    out.append("] - ");
    let usage = usage_field(used_k, max_k, pct);
    out.append(usage.as_str());
    out.append(" - ");
    let elapsed = elapsed_field(elapsed_us);
    out.append(elapsed.as_str());
    out
}

/// The used-kilotoken figure as displayed: saturated at `u64::MAX`.
pub open spec fn spec_used_k_display(cw: &ContextWindow) -> int {
    if spec_used_k(cw) > u64::MAX {
        u64::MAX as int
    } else {
        spec_used_k(cw)
    }
}

/// The primary line a snapshot produces, given the resolved repository
/// name, branch, and elapsed-time reading.
pub open spec fn spec_snapshot_primary_line(
    s: &Snapshot,
    repo_name: Option<Seq<char>>,
    branch: Option<Seq<char>>,
    elapsed_us: int,
) -> Seq<char> {
    spec_primary_line(
        spec_model_name(&s.model),
        spec_cost_rounded(&s.cost),
        spec_repo_label(repo_name, branch, s.cwd@),
        spec_used_k_display(&s.context_window),
        spec_max_k(&s.context_window),
        spec_rounded_percent(s.context_window.used_ppm as int),
        elapsed_us,
    )
}

/// The second line a snapshot produces: the shortened working directory.
pub open spec fn spec_second_line(s: &Snapshot, home: Option<Seq<char>>) -> Seq<char> {
    spec_shorten_path(s.cwd@, home)
}

/// Renders both status lines for a snapshot. `home` is the home-directory
/// location, if one is known; `repo_name` and `branch` are the git
/// enrichments the caller resolved, if any.
pub fn render_lines(
    snap: &Snapshot,
    home: Option<&str>,
    repo_name: Option<String>,
    branch: Option<String>,
    elapsed_us: u64,
) -> (r: (String, String))
    ensures
        r.0@ == spec_snapshot_primary_line(
            snap,
            repo_name.deep_view(),
            branch.deep_view(),
            elapsed_us as int,
        ),
        r.1@ == spec_second_line(snap, home.deep_view()),
{
    let (used_k, max_k, ppm) = snap.context_window.stats();
    let pct: i64 = rounded_percent(ppm);
    let cost: i64 = snap.cost.rounded();
    let label = repo_label(repo_name, branch, snap.cwd.as_str());
    let first = primary_line(
        snap.model.name(),
        cost,
        label.as_str(),
        used_k,
        max_k,
        pct,
        elapsed_us,
    );
    let second = shorten_path(snap.cwd.as_str(), home);
    (first, second)
}

} // verus!
