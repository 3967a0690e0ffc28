use simple_pr::keys::extract_issue_key;

#[test]
fn extracts_key_from_branch() {
    let r = extract_issue_key("feature/ABC-123-fix-bug");
    assert_eq!(r, Some("ABC-123".to_string()));
}

#[test]
fn no_key_in_branch() {
    let r = extract_issue_key("hotfix/no-ticket");
    assert_eq!(r, None);
}

#[test]
fn key_runs_are_maximal() {
    let r = extract_issue_key("release/XYZAB-90210-x");
    assert_eq!(r, Some("XYZAB-90210".to_string()));
}

#[test]
fn leftmost_key_wins() {
    let r = extract_issue_key("AA-1-and-BB-2");
    assert_eq!(r, Some("AA-1".to_string()));
}

#[test]
fn letters_alone_are_no_key() {
    assert_eq!(extract_issue_key("ABC123"), None);
    assert_eq!(extract_issue_key("AB-"), None);
    assert_eq!(extract_issue_key("AB-x"), None);
}

#[test]
fn lowercase_prefix_is_no_key() {
    assert_eq!(extract_issue_key("abc-123"), None);
}

#[test]
fn whole_string_can_be_a_key() {
    assert_eq!(extract_issue_key("DEV-7"), Some("DEV-7".to_string()));
}

#[test]
fn digits_stop_the_letter_run() {
    // The uppercase run before the hyphen must touch the hyphen itself.
    assert_eq!(extract_issue_key("AB1-2"), None);
}

#[test]
fn key_found_past_noise() {
    let r = extract_issue_key("bugfix/JIRA2/PROJ-88-tidy");
    assert_eq!(r, Some("PROJ-88".to_string()));
}

#[test]
fn empty_string_has_no_key() {
    assert_eq!(extract_issue_key(""), None);
}
