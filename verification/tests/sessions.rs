use simple_pr::session::{CreateAction, CreateEvent, CreateSession, Phase};

fn keywords(words: &[&str]) -> Vec<String> {
    words.iter().map(|w| w.to_string()).collect()
}

#[test]
fn creation_records_one_outcome_per_keyword() {
    let mut s = CreateSession::new(keywords(&["ABC-1", "DEF-2"]), "dev".to_string());
    assert!(matches!(s.pending_action(), CreateAction::FindTargetBranch(k) if k == "dev"));

    s.step(CreateEvent::TargetFound("dev".to_string()));
    assert!(matches!(s.pending_action(), CreateAction::FindSourceBranch(k) if k == "ABC-1"));

    // First keyword: resolves, gets a title, creation succeeds.
    s.step(CreateEvent::SourceFound("feature/ABC-1-foo".to_string()));
    assert!(matches!(s.pending_action(), CreateAction::FetchTitle(k) if k == "ABC-1"));
    s.step(CreateEvent::TitleReady("Fix login".to_string()));
    match s.pending_action() {
        CreateAction::SubmitPr { source, destination, title } => {
            assert_eq!(source, "feature/ABC-1-foo");
            assert_eq!(destination, "dev");
            assert_eq!(title, "[ABC-1] Fix login");
        }
        other => panic!("unexpected action: {:?}", action_name(&other)),
    }
    s.step(CreateEvent::PrCreated);

    // Second keyword: resolves, gets a title, creation fails; the run
    // continues and still records the outcome.
    assert!(matches!(s.pending_action(), CreateAction::FindSourceBranch(k) if k == "DEF-2"));
    s.step(CreateEvent::SourceFound("feature/DEF-2-bar".to_string()));
    s.step(CreateEvent::TitleReady("Task DEF-2".to_string()));
    s.step(CreateEvent::PrFailed("Bitbucket Error: conflict".to_string()));

    assert!(matches!(&s.phase, Phase::Done));
    assert!(matches!(s.pending_action(), CreateAction::Finished));

    // One success-or-failure line per input keyword.
    assert_eq!(s.outcomes.len(), 2);
    assert!(s.outcomes[0].success);
    assert_eq!(s.outcomes[0].line, "✅ Created: [feature/ABC-1-foo] -> [dev]");
    assert!(!s.outcomes[1].success);
    assert_eq!(s.outcomes[1].line, "❌ Failed: Bitbucket Error: conflict");
    assert_eq!(s.successes, vec!["feature/ABC-1-foo".to_string()]);
}

fn action_name(a: &CreateAction) -> &'static str {
    match a {
        CreateAction::FindTargetBranch(_) => "FindTargetBranch",
        CreateAction::FindSourceBranch(_) => "FindSourceBranch",
        CreateAction::FetchTitle(_) => "FetchTitle",
        CreateAction::SubmitPr { .. } => "SubmitPr",
        CreateAction::Finished => "Finished",
    }
}

#[test]
fn source_failure_is_isolated_per_keyword() {
    let mut s = CreateSession::new(keywords(&["ABC-1", "DEF-2"]), "dev".to_string());
    s.step(CreateEvent::TargetFound("dev".to_string()));

    // First keyword fails to resolve; processing moves on.
    s.step(CreateEvent::SourceFailed("Branch not found for keyword: ABC-1".to_string()));
    assert!(matches!(s.pending_action(), CreateAction::FindSourceBranch(k) if k == "DEF-2"));

    s.step(CreateEvent::SourceFound("feature/DEF-2-bar".to_string()));
    s.step(CreateEvent::TitleReady("Task DEF-2".to_string()));
    s.step(CreateEvent::PrCreated);

    assert_eq!(s.outcomes.len(), 2);
    assert!(!s.outcomes[0].success);
    assert_eq!(
        s.outcomes[0].line,
        "❌ Failed: Branch not found for keyword: ABC-1"
    );
    assert!(s.outcomes[1].success);
}

#[test]
fn destination_failure_blocks_all_creation() {
    let mut s = CreateSession::new(keywords(&["ABC-1", "DEF-2"]), "dev".to_string());
    s.step(CreateEvent::TargetFailed("Branch not found for keyword: dev".to_string()));

    match &s.phase {
        Phase::Failed { error } => assert_eq!(error, "Branch not found for keyword: dev"),
        _ => panic!("expected the failed phase"),
    }
    // No attempt was or will be made: nothing recorded, nothing pending.
    assert_eq!(s.outcomes.len(), 0);
    assert_eq!(s.successes.len(), 0);
    assert!(matches!(s.pending_action(), CreateAction::Finished));
}

#[test]
fn empty_keyword_list_finishes_after_resolution() {
    let mut s = CreateSession::new(Vec::new(), "dev".to_string());
    s.step(CreateEvent::TargetFound("dev".to_string()));
    assert!(matches!(&s.phase, Phase::Done));
    assert_eq!(s.outcomes.len(), 0);
    assert!(matches!(s.pending_action(), CreateAction::Finished));
}

#[test]
fn target_resolves_exactly_once_up_front() {
    let mut s = CreateSession::new(keywords(&["ABC-1"]), "dev".to_string());
    assert!(s.target.is_none());
    s.step(CreateEvent::TargetFound("develop".to_string()));
    assert_eq!(s.target, Some("develop".to_string()));
    s.step(CreateEvent::SourceFound("feature/ABC-1".to_string()));
    s.step(CreateEvent::TitleReady("Fix".to_string()));
    match s.pending_action() {
        CreateAction::SubmitPr { destination, .. } => assert_eq!(destination, "develop"),
        _ => panic!("expected a creation request"),
    }
    s.step(CreateEvent::PrCreated);
    assert_eq!(s.target, Some("develop".to_string()));
}
