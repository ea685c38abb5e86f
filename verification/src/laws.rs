//! Laws of the renderer, stated and proved over the same specification
//! functions that the executable functions' contracts use.

use vstd::prelude::*;
use crate::render::Snapshot;
use crate::render::spec_repo_label;
use crate::render::spec_primary_body;
use crate::render::spec_primary_line;
use crate::render::spec_elapsed_field;
use crate::render::spec_cost_field;
use crate::render::spec_usage_field;
use crate::render::spec_snapshot_primary_line;
use crate::render::spec_second_line;
use crate::render::spec_used_k_display;
use crate::model::spec_model_name;
use crate::cost::spec_cost_rounded;
use crate::context::spec_max_k;
use crate::context::spec_rounded_percent;
use crate::numfmt::spec_nat_digits;
use crate::numfmt::spec_int_digits;
use crate::numfmt::spec_digit_char;
use crate::paths::spec_shorten_path;

verus! {

/// The text stays on one line: no character is a line break.
pub open spec fn spec_single_line(s: Seq<char>) -> bool {
    forall|i: int| 0 <= i < s.len() ==> s[i] != '\n'
}

proof fn lemma_nat_digits_single_line(n: int)
    requires
        n >= 0,
    ensures
        spec_single_line(spec_nat_digits(n)),
    decreases n,
{
    if n >= 10 {
        lemma_nat_digits_single_line(n / 10);
    }
    assert(spec_digit_char(n % 10) != '\n');
    assert(spec_digit_char(n) != '\n');
}

proof fn lemma_int_digits_single_line(n: int)
    ensures
        spec_single_line(spec_int_digits(n)),
{
    if n < 0 {
        lemma_nat_digits_single_line(-n);
    } else {
        lemma_nat_digits_single_line(n);
    }
}

proof fn lemma_single_line_concat(a: Seq<char>, b: Seq<char>)
    requires
        spec_single_line(a),
        spec_single_line(b),
    ensures
        spec_single_line(a + b),
{
    assert forall|i: int| 0 <= i < (a + b).len() implies (a + b)[i] != '\n' by {
        if i < a.len() {
            assert((a + b)[i] == a[i]);
        } else {
            assert((a + b)[i] == b[i - a.len()]);
        }
    }
}

/// Law: the renderer emits single lines. Whatever the numeric inputs, and
/// for any model name and label free of line breaks, the primary line
/// contains no line break; the working-directory line contains none when
/// the path and home prefix contain none. Together with the one-line-each
/// output discipline of the caller, every input yields exactly two lines.
pub proof fn lemma_primary_line_single(
    name: Seq<char>,
    cost: int,
    label: Seq<char>,
    used_k: int,
    max_k: int,
    pct: int,
    us: int,
)
    requires
        spec_single_line(name),
        spec_single_line(label),
        used_k >= 0,
        max_k >= 0,
        us >= 0,
    ensures
        spec_single_line(spec_primary_line(name, cost, label, used_k, max_k, pct, us)),
{
    reveal_strlit("[");
    reveal_strlit("] ");
    reveal_strlit("$");
    reveal_strlit(" - [");
    reveal_strlit("] - ");
    reveal_strlit("k/");
    reveal_strlit("k (");
    reveal_strlit("%)");
    reveal_strlit(" - ");
    reveal_strlit("us");
    lemma_int_digits_single_line(cost);
    lemma_nat_digits_single_line(used_k);
    lemma_nat_digits_single_line(max_k);
    lemma_int_digits_single_line(pct);
    lemma_nat_digits_single_line(us);
    lemma_single_line_concat("$"@, spec_int_digits(cost));
    lemma_single_line_concat(spec_nat_digits(used_k), "k/"@);
    lemma_single_line_concat(spec_nat_digits(used_k) + "k/"@, spec_nat_digits(max_k));
    lemma_single_line_concat(spec_nat_digits(used_k) + "k/"@ + spec_nat_digits(max_k), "k ("@);
    lemma_single_line_concat(
        spec_nat_digits(used_k) + "k/"@ + spec_nat_digits(max_k) + "k ("@,
        spec_int_digits(pct),
    );
    lemma_single_line_concat(
        spec_nat_digits(used_k) + "k/"@ + spec_nat_digits(max_k) + "k ("@ + spec_int_digits(pct),
        "%)"@,
    );
    assert(spec_single_line(spec_usage_field(used_k, max_k, pct)));
    lemma_single_line_concat(spec_nat_digits(us), "us"@);
    assert(spec_single_line(spec_elapsed_field(us)));
    lemma_single_line_concat("["@, name);
    lemma_single_line_concat("["@ + name, "] "@);
    lemma_single_line_concat("["@ + name + "] "@, spec_cost_field(cost));
    lemma_single_line_concat("["@ + name + "] "@ + spec_cost_field(cost), " - ["@);
    lemma_single_line_concat("["@ + name + "] "@ + spec_cost_field(cost) + " - ["@, label);
    lemma_single_line_concat(
        "["@ + name + "] "@ + spec_cost_field(cost) + " - ["@ + label,
        "] - "@,
    );
    lemma_single_line_concat(
        "["@ + name + "] "@ + spec_cost_field(cost) + " - ["@ + label + "] - "@,
        spec_usage_field(used_k, max_k, pct),
    );
    lemma_single_line_concat(
        "["@ + name + "] "@ + spec_cost_field(cost) + " - ["@ + label + "] - "@ + spec_usage_field(
            used_k,
            max_k,
            pct,
        ),
        " - "@,
    );
    assert(spec_single_line(spec_primary_body(name, cost, label, used_k, max_k, pct)));
    lemma_single_line_concat(
        spec_primary_body(name, cost, label, used_k, max_k, pct),
        spec_elapsed_field(us),
    );
}

/// Law: shortening keeps the path on one line. A line-break-free path stays
/// line-break-free after the home prefix is replaced by `~`.
pub proof fn lemma_second_line_single(path: Seq<char>, home: Option<Seq<char>>)
    requires
        spec_single_line(path),
    ensures
        spec_single_line(spec_shorten_path(path, home)),
{
    match home {
        Some(h) => {
            if crate::text::spec_is_prefix(h, path) {
                let shortened = seq!['~'] + path.skip(h.len() as int);
                assert forall|i: int| 0 <= i < shortened.len() implies shortened[i] != '\n' by {
                    if i > 0 {
                        assert(shortened[i] == path.skip(h.len() as int)[i - 1]);
                        assert(path.skip(h.len() as int)[i - 1] == path[h.len() + i - 1]);
                    }
                }
            }
        },
        None => {},
    }
}

/// Law: the formatter is idempotent aside from the elapsed-time field.
/// Rendering equal snapshots with equal enrichments yields identical lines,
/// and two renderings of one snapshot differ at most in the elapsed-time
/// field, which closes the primary line: everything before it is the same.
pub proof fn lemma_formatter_idempotent(
    a: &Snapshot,
    b: &Snapshot,
    repo_name: Option<Seq<char>>,
    branch: Option<Seq<char>>,
    home: Option<Seq<char>>,
    e1: int,
    e2: int,
)
    requires
        a == b,
    ensures
        spec_snapshot_primary_line(a, repo_name, branch, e1) == spec_snapshot_primary_line(
            b,
            repo_name,
            branch,
            e1,
        ),
        spec_second_line(a, home) == spec_second_line(b, home),
        spec_snapshot_primary_line(a, repo_name, branch, e1) == spec_primary_body(
            spec_model_name(&a.model),
            spec_cost_rounded(&a.cost),
            spec_repo_label(repo_name, branch, a.cwd@),
            spec_used_k_display(&a.context_window),
            spec_max_k(&a.context_window),
            spec_rounded_percent(a.context_window.used_ppm as int),
        ) + spec_elapsed_field(e1),
        spec_snapshot_primary_line(a, repo_name, branch, e2) == spec_primary_body(
            spec_model_name(&a.model),
            spec_cost_rounded(&a.cost),
            spec_repo_label(repo_name, branch, a.cwd@),
            spec_used_k_display(&a.context_window),
            spec_max_k(&a.context_window),
            spec_rounded_percent(a.context_window.used_ppm as int),
        ) + spec_elapsed_field(e2),
{
}

} // verus!
