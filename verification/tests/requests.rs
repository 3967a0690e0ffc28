use simple_pr::api::{
    branch_query, branches_url, browse_url, check_status, created_message, first_pr_link,
    issue_url, pr_source_query, prs_url, select_branch,
};
use simple_pr::config::{build_context, resolve_create_args, Service};

#[test]
fn branches_url_is_exact() {
    assert_eq!(
        branches_url("acme", "widgets"),
        "https://api.bitbucket.org/2.0/repositories/acme/widgets/refs/branches"
    );
}

#[test]
fn prs_url_is_exact() {
    assert_eq!(
        prs_url("acme", "widgets"),
        "https://api.bitbucket.org/2.0/repositories/acme/widgets/pullrequests"
    );
}

#[test]
fn issue_and_browse_urls_are_exact() {
    assert_eq!(
        issue_url("https://acme.atlassian.net", "ABC-123"),
        "https://acme.atlassian.net/rest/api/3/issue/ABC-123"
    );
    assert_eq!(
        browse_url("https://acme.atlassian.net", "ABC-123"),
        "https://acme.atlassian.net/browse/ABC-123"
    );
}

#[test]
fn branch_query_without_filter() {
    assert_eq!(branch_query("ABC-123", None), "name~\"ABC-123\"");
}

#[test]
fn branch_query_with_filter() {
    assert_eq!(
        branch_query("ABC-123", Some("dev")),
        "name~\"ABC-123\" AND name~\"dev\""
    );
}

#[test]
fn pr_source_query_is_exact() {
    assert_eq!(
        pr_source_query("feature/ABC-123"),
        "source.branch.name = \"feature/ABC-123\" AND destination.branch.name != \"dev\""
    );
}

#[test]
fn check_status_accepts_success_range() {
    assert!(check_status("Bitbucket", 200, String::new(), "u").is_ok());
    assert!(check_status("Bitbucket", 204, String::new(), "u").is_ok());
    assert!(check_status("Bitbucket", 299, String::new(), "u").is_ok());
}

#[test]
fn check_status_rejects_outside_success_range() {
    for status in [100u16, 199, 300, 301, 404, 500] {
        let r = check_status("Bitbucket", status, "body".to_string(), "u");
        let e = r.err().expect("expected an error");
        assert_eq!(e.status, status);
        assert_eq!(e.service, "Bitbucket");
        assert_eq!(e.body, "body");
        assert_eq!(e.url, "u");
    }
}

#[test]
fn api_error_message_is_exact() {
    let e = check_status(
        "Bitbucket",
        404,
        "Not Found".to_string(),
        "https://api.bitbucket.org/x",
    )
    .err()
    .expect("expected an error");
    assert_eq!(
        e.message(),
        "❌ Bitbucket API Fail [404]: Not Found\n(URL: https://api.bitbucket.org/x)"
    );
}

#[test]
fn select_branch_prefers_exact_match() {
    let branches = vec!["feature/ABC-1-foo".to_string(), "ABC-1".to_string()];
    let r = select_branch(&branches, "ABC-1");
    assert_eq!(r.ok().expect("expected a branch"), "ABC-1");
}

#[test]
fn select_branch_falls_back_to_first_match() {
    let branches = vec![
        "feature/ABC-1-foo".to_string(),
        "feature/ABC-1-bar".to_string(),
    ];
    let r = select_branch(&branches, "ABC-1");
    assert_eq!(r.ok().expect("expected a branch"), "feature/ABC-1-foo");
}

#[test]
fn select_branch_empty_is_not_found() {
    let branches: Vec<String> = Vec::new();
    let e = select_branch(&branches, "ABC-1").err().expect("expected an error");
    assert_eq!(e.keyword, "ABC-1");
    assert_eq!(e.message(), "Branch not found for keyword: ABC-1");
}

#[test]
fn created_message_is_exact() {
    assert_eq!(
        created_message("feature/ABC-1", "dev"),
        "Created: [feature/ABC-1] -> [dev]"
    );
}

#[test]
fn first_pr_link_takes_most_recent_on_success() {
    let links = vec!["https://pr/2".to_string(), "https://pr/1".to_string()];
    assert_eq!(first_pr_link(true, links), Some("https://pr/2".to_string()));
}

#[test]
fn first_pr_link_degrades_to_empty() {
    let links = vec!["https://pr/2".to_string()];
    assert_eq!(first_pr_link(false, links), None);
    assert_eq!(first_pr_link(true, Vec::new()), None);
}

fn full_env() -> [Option<String>; 6] {
    [
        Some("acme".to_string()),
        Some("widgets".to_string()),
        Some("SECRET-REDACTED".to_string()),
        Some("https://acme.atlassian.net".to_string()),
        Some("dev@acme.example".to_string()),
        Some("SECRET-REDACTED".to_string()),
    ]
}

fn build_from(vals: [Option<String>; 6]) -> Result<simple_pr::config::Context, simple_pr::config::ConfigError> {
    let [a, b, c, d, e, f] = vals;
    build_context(a, b, c, d, e, f)
}

#[test]
fn context_assembles_when_all_present() {
    let c = build_from(full_env()).ok().expect("expected a context");
    assert_eq!(c.workspace, "acme");
    assert_eq!(c.repo, "widgets");
    assert_eq!(c.tracker_host, "https://acme.atlassian.net");
    assert_eq!(c.account_email, "dev@acme.example");
}

#[test]
fn context_names_each_missing_variable() {
    let names = [
        "BB_WORKSPACE",
        "BB_REPO_SLUG",
        "BB_API_TOKEN",
        "JIRA_HOST",
        "ATLASSIAN_EMAIL",
        "JIRA_API_TOKEN",
    ];
    for (i, name) in names.iter().enumerate() {
        let mut vals = full_env();
        vals[i] = None;
        let e = build_from(vals).err().expect("expected an error");
        assert_eq!(e.missing, *name);
        assert_eq!(e.message(), format!("Env {} missing", name));
    }
}

#[test]
fn context_names_first_missing_variable() {
    let mut vals = full_env();
    vals[1] = None;
    vals[4] = None;
    let e = build_from(vals).err().expect("expected an error");
    assert_eq!(e.missing, "BB_REPO_SLUG");
}

#[test]
fn credentials_select_the_service_token() {
    let c = build_from(full_env()).ok().expect("expected a context");
    let (email, token) = c.credentials(Service::Hosting);
    assert_eq!(email, "dev@acme.example");
    assert_eq!(token, &c.hosting_token);
    let (email2, token2) = c.credentials(Service::Tracker);
    assert_eq!(email2, "dev@acme.example");
    assert_eq!(token2, &c.tracker_token);
}

#[test]
fn legacy_create_args_require_both_flags() {
    let ok = resolve_create_args(Some(vec!["ABC-1".to_string()]), Some("dev".to_string()));
    let (from, to) = ok.ok().expect("expected the pair");
    assert_eq!(from, vec!["ABC-1".to_string()]);
    assert_eq!(to, "dev");

    let e = resolve_create_args(None, Some("dev".to_string())).err().expect("expected an error");
    assert_eq!(e.message(), "--from is required for create mode");

    let e = resolve_create_args(Some(vec!["ABC-1".to_string()]), None)
        .err()
        .expect("expected an error");
    assert_eq!(e.message(), "--to is required for create mode");
}
