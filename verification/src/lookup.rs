//! Lookup mode: given the snapshot the caller fetched for one keyword —
//! the matching branches with their most-recent pull-request link,
//! optional workflow state, and optional issue summary — renders the
//! report lines. The output is a function of the snapshot alone, so an
//! unchanged upstream yields identical output on every run.

use vstd::prelude::*;
use crate::keys::issue_key_of;
use crate::render::{
    spec_find_line, spec_no_results_line, view_opt_string, render_find_line, render_no_results,
};

verus! {

/// Everything fetched about one matching branch: its name, the link of
/// its most recent pull request (if any), that pull request's workflow
/// state (if known), and the issue summary (if one was obtained).
pub struct BranchData {
    pub name: String,
    pub pr_link: Option<String>,
    pub state: Option<String>,
    pub summary: Option<String>,
}

/// The line rendered for one branch: its extracted issue key (if any)
/// decides between the tracker-linked form and the bare-branch form.
pub open spec fn spec_branch_line(tracker_host: Seq<char>, b: BranchData) -> Seq<char> {
    spec_find_line(
        tracker_host,
        issue_key_of(b.name@),
        view_opt_string(b.summary),
        view_opt_string(b.pr_link),
        view_opt_string(b.state),
        b.name@,
    )
}

/// The report for one keyword: the "no results" notice when nothing
/// matched, else one line per branch, in order.
pub open spec fn spec_lookup_lines(
    tracker_host: Seq<char>,
    keyword: Seq<char>,
    branches: Seq<BranchData>,
) -> Seq<Seq<char>> {
    if branches.len() == 0 {
        seq![spec_no_results_line(keyword)]
    } else {
        Seq::new(branches.len(), |i: int| spec_branch_line(tracker_host, branches[i]))
    }
}

/// Renders the line for one branch record.
pub fn render_branch_line(tracker_host: &str, b: &BranchData) -> (r: String)
    ensures
        r@ == spec_branch_line(tracker_host@, *b),
{
    let key = crate::keys::extract_issue_key(b.name.as_str());
    let key_ref: Option<&str> = match &key {
        Some(k) => Some(k.as_str()),
        None => None,
    };
    let summary_ref: Option<&str> = match &b.summary {
        Some(s) => Some(s.as_str()),
        None => None,
    };
    let pr_ref: Option<&str> = match &b.pr_link {
        Some(u) => Some(u.as_str()),
        None => None,
    };
    let state_ref: Option<&str> = match &b.state {
        Some(st) => Some(st.as_str()),
        None => None,
    };
    render_find_line(tracker_host, key_ref, summary_ref, pr_ref, state_ref, b.name.as_str())
}

/// Renders the whole report for one keyword.
pub fn lookup_lines(tracker_host: &str, keyword: &str, branches: &Vec<BranchData>) -> (r: Vec<
    String,
>)
    ensures
        r@.map_values(|s: String| s@) == spec_lookup_lines(tracker_host@, keyword@, branches@),
{
    if branches.len() == 0 {
        let mut v: Vec<String> = Vec::new();
        v.push(render_no_results(keyword));
        proof {
            assert(v@.map_values(|s: String| s@) =~= seq![spec_no_results_line(keyword@)]);
        }
        v
    } else {
        let n = branches.len();
        let mut v: Vec<String> = Vec::new();
        let mut i: usize = 0;
        while i < n
            invariant
                0 <= i <= n,
                n == branches@.len(),
                v@.len() == i,
                forall|j: int| 0 <= j < i ==> #[trigger] v@[j]@ == spec_branch_line(
                    tracker_host@,
                    branches@[j],
                ),
            decreases n - i,
        {
            let line = render_branch_line(tracker_host, &branches[i]);
            v.push(line);
            i = i + 1;
        }
        proof {
            assert(v@.map_values(|s: String| s@) =~= Seq::new(
                branches@.len(),
                |i: int| spec_branch_line(tracker_host@, branches@[i]),
            ));
        }
        v
    }
}

/// Law: lookup output depends on the fetched snapshot alone — two runs
/// against an unchanged upstream state render identical lines.
pub proof fn lemma_lookup_idempotent(
    tracker_host: Seq<char>,
    keyword: Seq<char>,
    first_run: Seq<BranchData>,
    second_run: Seq<BranchData>,
)
    requires
        first_run == second_run,
    ensures
        spec_lookup_lines(tracker_host, keyword, first_run) == spec_lookup_lines(
            tracker_host,
            keyword,
            second_run,
        ),
{
}

} // verus!
