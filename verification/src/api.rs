//! Request construction and response decisions for the two upstream REST
//! APIs: endpoint URLs, search query strings, the uniform non-2xx error,
//! branch selection from a search result, and the pull-request creation
//! payload. Everything here is computed from plain values; the caller
//! performs the actual network calls.

use vstd::prelude::*;
use crate::text::{dec_str, u16_to_string};

verus! {

/// URL of the branch-search endpoint for one repository.
pub open spec fn spec_branches_url(workspace: Seq<char>, repo: Seq<char>) -> Seq<char> {
    "https://api.bitbucket.org/2.0/repositories/"@ + workspace + "/"@ + repo + "/refs/branches"@
}

/// URL of the pull-request endpoint for one repository.
pub open spec fn spec_prs_url(workspace: Seq<char>, repo: Seq<char>) -> Seq<char> {
    "https://api.bitbucket.org/2.0/repositories/"@ + workspace + "/"@ + repo + "/pullrequests"@
}

/// URL that fetches one issue from the tracker.
pub open spec fn spec_issue_url(host: Seq<char>, key: Seq<char>) -> Seq<char> {
    host + "/rest/api/3/issue/"@ + key
}

/// URL of an issue's human-readable page on the tracker.
pub open spec fn spec_browse_url(host: Seq<char>, key: Seq<char>) -> Seq<char> {
    host + "/browse/"@ + key
}

pub fn branches_url(workspace: &str, repo: &str) -> (r: String)
    ensures
        r@ == spec_branches_url(workspace@, repo@),
{
    let mut s = String::from_str("https://api.bitbucket.org/2.0/repositories/");
    s.append(workspace);
    s.append("/");
    s.append(repo);
    s.append("/refs/branches");
    s
}

pub fn prs_url(workspace: &str, repo: &str) -> (r: String)
    ensures
        r@ == spec_prs_url(workspace@, repo@),
{
    let mut s = String::from_str("https://api.bitbucket.org/2.0/repositories/");
    s.append(workspace);
    s.append("/");
    s.append(repo);
    s.append("/pullrequests");
    s
}

pub fn issue_url(host: &str, key: &str) -> (r: String)
    ensures
        r@ == spec_issue_url(host@, key@),
{
    let mut s = host.to_owned();
    s.append("/rest/api/3/issue/");
    s.append(key);
    s
}

pub fn browse_url(host: &str, key: &str) -> (r: String)
    ensures
        r@ == spec_browse_url(host@, key@),
{
    let mut s = host.to_owned();
    s.append("/browse/");
    s.append(key);
    s
}

/// Search query matching branches whose name contains `keyword`,
/// optionally also constrained to contain `filter`.
pub open spec fn spec_branch_query(keyword: Seq<char>, filter: Option<Seq<char>>) -> Seq<char> {
    let base = "name~\""@ + keyword + "\""@;
    match filter {
        Some(f) => base + " AND name~\""@ + f + "\""@,
        None => base,
    }
}

pub fn branch_query(keyword: &str, filter: Option<&str>) -> (r: String)
    ensures
        match filter {
            Some(f) => r@ == spec_branch_query(keyword@, Some(f@)),
            None => r@ == spec_branch_query(keyword@, None),
        },
{
    let mut s = String::from_str("name~\"");
    s.append(keyword);
    s.append("\"");
    match filter {
        Some(f) => {
            s.append(" AND name~\"");
            s.append(f);
            s.append("\"");
        },
        None => {},
    }
    s
}

/// Search query matching pull requests whose source is `branch` and whose
/// destination is not the excluded integration branch.
pub open spec fn spec_pr_source_query(branch: Seq<char>) -> Seq<char> {
    "source.branch.name = \""@ + branch + "\" AND destination.branch.name != \"dev\""@
}

pub fn pr_source_query(branch: &str) -> (r: String)
    ensures
        r@ == spec_pr_source_query(branch@),
{
    let mut s = String::from_str("source.branch.name = \"");
    s.append(branch);
    s.append("\" AND destination.branch.name != \"dev\"");
    s
}

/// An HTTP status in the 2xx success range.
pub open spec fn is_success_status(status: u16) -> bool {
    200 <= status < 300
}

/// A non-2xx response from an upstream service, carrying everything a
/// caller needs to report it: service name, status, body text and URL.
pub struct ApiError {
    pub service: String,
    pub status: u16,
    pub body: String,
    pub url: String,
}

/// The message rendered for an upstream failure.
pub open spec fn spec_api_error_line(
    service: Seq<char>,
    status: u16,
    body: Seq<char>,
    url: Seq<char>,
) -> Seq<char> {
    "❌ "@ + service + " API Fail ["@ + dec_str(status as nat) + "]: "@ + body + "\n(URL: "@ + url
        + ")"@
}

impl ApiError {
    /// Human-readable description of the failed request.
    pub fn message(&self) -> (r: String)
        ensures
            r@ == spec_api_error_line(self.service@, self.status, self.body@, self.url@),
    {
        let mut s = String::from_str("❌ ");
        s.append(self.service.as_str());
        s.append(" API Fail [");
        let status = u16_to_string(self.status);
        s.append(status.as_str());
        s.append("]: ");
        s.append(self.body.as_str());
        s.append("\n(URL: ");
        s.append(self.url.as_str());
        s.append(")");
        s
    }
}

/// Accepts a 2xx response and rejects any other, packaging the status,
/// body and URL into a uniform error. Success is owed exactly on the 2xx
/// statuses.
pub fn check_status(service: &str, status: u16, body: String, url: &str) -> (r: Result<
    (),
    ApiError,
>)
    ensures
        r is Ok <==> is_success_status(status),
        r matches Err(e) ==> {
            &&& e.service@ == service@
            &&& e.status == status
            &&& e.body == body
            &&& e.url@ == url@
        },
{
    if 200 <= status && status < 300 {
        Ok(())
    } else {
        Err(ApiError { service: service.to_owned(), status, body, url: url.to_owned() })
    }
}

/// No branch matched the keyword during resolution.
pub struct NotFoundError {
    pub keyword: String,
}

/// The message rendered when branch resolution finds nothing.
pub open spec fn spec_not_found_line(keyword: Seq<char>) -> Seq<char> {
    "Branch not found for keyword: "@ + keyword
}

impl NotFoundError {
    /// Human-readable description naming the keyword that matched nothing.
    pub fn message(&self) -> (r: String)
        ensures
            r@ == spec_not_found_line(self.keyword@),
    {
        let mut s = String::from_str("Branch not found for keyword: ");
        s.append(self.keyword.as_str());
        s
    }
}

/// Whether some branch in the list is named exactly `keyword`.
pub open spec fn exact_match_exists(branches: Seq<String>, keyword: Seq<char>) -> bool {
    exists|i: int| 0 <= i < branches.len() && branches[i]@ == keyword
}

/// Picks the branch a keyword resolves to, out of the branches the search
/// returned: the exact-name match when one exists, else the first match,
/// and an error naming the keyword when the list is empty.
pub fn select_branch(branches: &Vec<String>, keyword: &str) -> (r: Result<String, NotFoundError>)
    ensures
        exact_match_exists(branches@, keyword@) ==> (r matches Ok(b) && b@ == keyword@),
        !exact_match_exists(branches@, keyword@) && branches@.len() > 0 ==> (r matches Ok(b)
            && b@ == branches@[0]@),
        r is Err <==> branches@.len() == 0,
        r matches Err(e) ==> e.keyword@ == keyword@,
{
    let n = branches.len();
    let mut i: usize = 0;
    while i < n
        invariant
            0 <= i <= n,
            n == branches@.len(),
            forall|j: int| 0 <= j < i ==> branches@[j]@ != keyword@,
        decreases n - i,
    {
        if crate::text::str_eq(branches[i].as_str(), keyword) {
            return Ok(branches[i].clone());
        }
        i = i + 1;
    }
    if n > 0 {
        Ok(branches[0].clone())
    } else {
        Err(NotFoundError { keyword: keyword.to_owned() })
    }
}

/// Body of a pull-request creation call: a title and the two branch
/// names. The caller serializes it into the wire shape.
pub struct CreatePrPayload {
    pub title: String,
    pub source_branch: String,
    pub destination_branch: String,
}

/// The confirmation returned after a successful creation.
pub open spec fn spec_created_message(src: Seq<char>, target: Seq<char>) -> Seq<char> {
    "Created: ["@ + src + "] -> ["@ + target + "]"@
}

/// Confirmation text for a successfully created pull request.
pub fn created_message(src: &str, target: &str) -> (r: String)
    ensures
        r@ == spec_created_message(src@, target@),
{
    let mut s = String::from_str("Created: [");
    s.append(src);
    s.append("] -> [");
    s.append(target);
    s.append("]");
    s
}

/// The auxiliary pull-request link for a branch: the first (most recent)
/// link when the lookup succeeded and returned any, and nothing when the
/// lookup failed or returned none — a failed auxiliary lookup degrades to
/// an empty result instead of aborting.
pub fn first_pr_link(lookup_succeeded: bool, links: Vec<String>) -> (r: Option<String>)
    ensures
        lookup_succeeded && links@.len() > 0 ==> (r matches Some(l) && l@ == links@[0]@),
        !(lookup_succeeded && links@.len() > 0) ==> r is None,
{
    if lookup_succeeded && links.len() > 0 {
        Some(links[0].clone())
    } else {
        None
    }
}

} // verus!
