//! Presentation: renders one found-branch record, one creation outcome,
//! or one "no results" notice as a line of Markdown-flavored text. Pure
//! string construction; the caller prints the lines.

use vstd::prelude::*;
use crate::api::spec_browse_url;

verus! {

/// The view of an optional borrowed string.
pub open spec fn view_opt_str(o: Option<&str>) -> Option<Seq<char>> {
    match o {
        Some(s) => Some(s@),
        None => None,
    }
}

/// The view of an optional owned string.
pub open spec fn view_opt_string(o: Option<String>) -> Option<Seq<char>> {
    match o {
        Some(s) => Some(s@),
        None => None,
    }
}

/// The emoji-and-label marker for a workflow state: one fixed pair per
/// known state, and a generic marker around any unrecognized state.
pub open spec fn spec_state_marker(state: Seq<char>) -> Seq<char> {
    if state == "OPEN"@ {
        "🟢 OPEN"@
    } else if state == "MERGED"@ {
        "🟣 MERGED"@
    } else if state == "DECLINED"@ {
        "🔴 DECLINED"@
    } else if state == "SUPERSEDED"@ {
        "⚪ SUPERSEDED"@
    } else {
        "❔ "@ + state
    }
}

/// Renders a workflow state as its emoji-and-label marker.
pub fn render_state(state: &str) -> (r: String)
    ensures
        r@ == spec_state_marker(state@),
{
    if crate::text::str_eq(state, "OPEN") {
        String::from_str("🟢 OPEN")
    } else if crate::text::str_eq(state, "MERGED") {
        String::from_str("🟣 MERGED")
    } else if crate::text::str_eq(state, "DECLINED") {
        String::from_str("🔴 DECLINED")
    } else if crate::text::str_eq(state, "SUPERSEDED") {
        String::from_str("⚪ SUPERSEDED")
    } else {
        let mut s = String::from_str("❔ ");
        s.append(state);
        s
    }
}

/// The pull-request part of a found-branch line: a Markdown link when a
/// link is known, and a placeholder when none is.
pub open spec fn spec_pr_link_part(link: Option<Seq<char>>) -> Seq<char> {
    match link {
        Some(u) => "[PR]("@ + u + ")"@,
        None => "(No valid PR)"@,
    }
}

/// One found-branch line. With a key: a tracker deep link, the summary
/// (or the failure placeholder), and the PR part. Without: the bare
/// branch name and the PR part. A known workflow state is appended as
/// its marker.
pub open spec fn spec_find_line(
    tracker_host: Seq<char>,
    key: Option<Seq<char>>,
    summary: Option<Seq<char>>,
    pr_link: Option<Seq<char>>,
    state: Option<Seq<char>>,
    branch: Seq<char>,
) -> Seq<char> {
    let pr_part = spec_pr_link_part(pr_link);
    let base = match key {
        Some(k) => {
            let sum = match summary {
                Some(s) => s,
                None => "(Jira Info Failed)"@,
            };
            "["@ + k + "]("@ + spec_browse_url(tracker_host, k) + ") "@ + sum + " "@ + pr_part
        },
        None => branch + " "@ + pr_part,
    };
    match state {
        Some(st) => base + " "@ + spec_state_marker(st),
        None => base,
    }
}

/// Renders one found-branch record.
pub fn render_find_line(
    tracker_host: &str,
    key: Option<&str>,
    summary: Option<&str>,
    pr_link: Option<&str>,
    state: Option<&str>,
    branch: &str,
) -> (r: String)
    ensures
        r@ == spec_find_line(
            tracker_host@,
            view_opt_str(key),
            view_opt_str(summary),
            view_opt_str(pr_link),
            view_opt_str(state),
            branch@,
        ),
{
    let pr_part = match pr_link {
        Some(u) => {
            let mut p = String::from_str("[PR](");
            p.append(u);
            p.append(")");
            p
        },
        None => String::from_str("(No valid PR)"),
    };
    let mut line = match key {
        Some(k) => {
            let mut s = String::from_str("[");
            s.append(k);
            s.append("](");
            let link = crate::api::browse_url(tracker_host, k);
            s.append(link.as_str());
            s.append(") ");
            match summary {
                Some(sum) => s.append(sum),
                None => s.append("(Jira Info Failed)"),
            }
            s.append(" ");
            s.append(pr_part.as_str());
            s
        },
        None => {
            let mut s = branch.to_owned();
            s.append(" ");
            s.append(pr_part.as_str());
            s
        },
    };
    match state {
        Some(st) => {
            line.append(" ");
            let marker = render_state(st);
            line.append(marker.as_str());
        },
        None => {},
    }
    line
}

/// One creation-outcome line: a success confirmation naming both
/// branches, or a failure line carrying the error text.
pub open spec fn spec_create_line(
    src: Seq<char>,
    target: Seq<char>,
    error: Option<Seq<char>>,
) -> Seq<char> {
    match error {
        None => "✅ Created: ["@ + src + "] -> ["@ + target + "]"@,
        Some(e) => "❌ Failed: "@ + e,
    }
}

/// Renders one creation outcome.
pub fn render_create_line(src: &str, target: &str, error: Option<&str>) -> (r: String)
    ensures
        r@ == spec_create_line(src@, target@, view_opt_str(error)),
{
    match error {
        None => {
            let mut s = String::from_str("✅ Created: [");
            s.append(src);
            s.append("] -> [");
            s.append(target);
            s.append("]");
            s
        },
        Some(e) => {
            let mut s = String::from_str("❌ Failed: ");
            s.append(e);
            s
        },
    }
}

/// The soft notice printed when a lookup keyword matches nothing.
pub open spec fn spec_no_results_line(keyword: Seq<char>) -> Seq<char> {
    "📭 No branches found for '"@ + keyword + "'"@
}

/// Renders the "no results" notice for one keyword.
pub fn render_no_results(keyword: &str) -> (r: String)
    ensures
        r@ == spec_no_results_line(keyword@),
{
    let mut s = String::from_str("📭 No branches found for '");
    s.append(keyword);
    s.append("'");
    s
}

} // verus!
