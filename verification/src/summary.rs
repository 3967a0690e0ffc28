//! Issue-summary titles. A summary lookup must never abort the workflow:
//! a key without tracker structure is answered locally, and any tracker
//! failure degrades to a synthesized fallback title.

use vstd::prelude::*;
use crate::text::has_char;

verus! {

/// Title synthesized for a key with no hyphen-delimited structure.
pub open spec fn spec_update_title(key: Seq<char>) -> Seq<char> {
    "Update from "@ + key
}

/// Fallback title used when the tracker cannot answer for a key.
pub open spec fn spec_task_title(key: Seq<char>) -> Seq<char> {
    "Task "@ + key
}

/// The pull-request title built from a key and its summary.
pub open spec fn spec_pr_title(key: Seq<char>, summary: Seq<char>) -> Seq<char> {
    "["@ + key + "] "@ + summary
}

/// Decides whether a key needs the tracker at all: a key with no hyphen
/// has no tracker structure, so a generic title is synthesized locally
/// and nothing is queried. Returns that title, or nothing when the
/// tracker must be asked.
pub fn title_without_tracker(key: &str) -> (r: Option<String>)
    ensures
        r is None <==> has_char(key@, '-'),
        r matches Some(t) ==> t@ == spec_update_title(key@),
{
    if crate::text::contains_char(key, '-') {
        None
    } else {
        let mut s = String::from_str("Update from ");
        s.append(key);
        Some(s)
    }
}

/// Turns the tracker's answer into the final summary text: the summary
/// itself when one came back, and the fallback title when the lookup
/// failed in any way — a summary failure never propagates.
pub fn title_from_response(key: &str, summary: Option<String>) -> (r: String)
    ensures
        match summary {
            Some(s) => r == s,
            None => r@ == spec_task_title(key@),
        },
{
    match summary {
        Some(s) => s,
        None => {
            let mut t = String::from_str("Task ");
            t.append(key);
            t
        },
    }
}

/// Builds the pull-request title `[KEY] summary`.
pub fn pr_title(key: &str, summary: &str) -> (r: String)
    ensures
        r@ == spec_pr_title(key@, summary@),
{
    let mut s = String::from_str("[");
    s.append(key);
    s.append("] ");
    s.append(summary);
    s
}

} // verus!
