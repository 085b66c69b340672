use llmlog::diff::CommitInfo;
use llmlog::pipeline::{Action, Aggregator, Event, Stage};
use llmlog::prompt::{ChangeType, Changelog, CommitSummary};

fn info(id: &str) -> CommitInfo {
    CommitInfo { id: id.to_string(), message: "m".to_string(), diff: String::new() }
}

fn summary(id: &str) -> CommitSummary {
    CommitSummary { commit_id: id.to_string(), change_type: ChangeType::Other, summary: "s".to_string(), changes: Vec::new() }
}

#[test]
fn zero_commits_go_straight_to_aggregating() {
    let mut a = Aggregator::new();
    assert_eq!(a.stage(), Stage::Enumerating);
    let act = a.step(Event::Enumerated(Vec::new()));
    assert!(matches!(act, Action::DraftChangelog));
    assert_eq!(a.stage(), Stage::Aggregating);
    assert!(a.summaries().is_empty());
}

#[test]
fn commits_processed_in_order() {
    let mut a = Aggregator::new();
    match a.step(Event::Enumerated(vec!["c1".to_string(), "c2".to_string()])) {
        Action::ExtractDiff(id) => assert_eq!(id, "c1"),
        other => panic!("{:?}", other),
    }
    match a.step(Event::DiffExtracted(info("c1"))) {
        Action::Summarize(i) => assert_eq!(i.id, "c1"),
        other => panic!("{:?}", other),
    }
    assert_eq!(a.stage(), Stage::Summarizing);
    match a.step(Event::Summarized(summary("c1"))) {
        Action::ExtractDiff(id) => assert_eq!(id, "c2"),
        other => panic!("{:?}", other),
    }
    a.step(Event::DiffExtracted(info("c2")));
    assert!(matches!(a.step(Event::Summarized(summary("c2"))), Action::DraftChangelog));
    let ids: Vec<&str> = a.summaries().iter().map(|s| s.commit_id.as_str()).collect();
    assert_eq!(ids, vec!["c1", "c2"]);
    let act = a.step(Event::Drafted(Changelog { title: "T".to_string(), content: "C".to_string() }));
    assert!(matches!(act, Action::Finish));
    assert_eq!(a.stage(), Stage::Done);
    assert_eq!(a.changelog().unwrap().title, "T");
}

#[test]
fn failure_ends_the_run() {
    let mut a = Aggregator::new();
    a.step(Event::Enumerated(vec!["c1".to_string()]));
    assert!(matches!(a.step(Event::Failure("diff".to_string())), Action::Abort));
    assert_eq!(a.stage(), Stage::Failed);
    assert_eq!(a.failure().map(|s| s.as_str()), Some("diff"));
    assert!(matches!(a.step(Event::DiffExtracted(info("c1"))), Action::Abort));
    assert_eq!(a.stage(), Stage::Failed);
    assert!(a.changelog().is_none());
}

#[test]
fn unexpected_event_fails_the_run() {
    let mut a = Aggregator::new();
    a.step(Event::Enumerated(vec!["c1".to_string()]));
    assert!(matches!(a.step(Event::Summarized(summary("c1"))), Action::Abort));
    assert_eq!(a.stage(), Stage::Failed);
}
