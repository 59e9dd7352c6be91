use webhook_ingest::event::{GitHubWebhookCommit, GitHubWebhookEvent};
use webhook_ingest::history::{EventHistory, MAX_EVENTS};

fn event(n: usize) -> GitHubWebhookEvent {
    GitHubWebhookEvent {
        id: format!("github_{}", n),
        event_type: "push".to_string(),
        repo: "acme/repo".to_string(),
        branch: "main".to_string(),
        author: "ada".to_string(),
        author_avatar: "http://x/a.png".to_string(),
        timestamp: "2024-01-01T00:00:00+00:00".to_string(),
        commits: vec![GitHubWebhookCommit {
            id: format!("c{}", n),
            message: "fix bug".to_string(),
            author: "ada".to_string(),
            timestamp: "2024-01-01T00:00:00Z".to_string(),
        }],
    }
}

fn ids(history: &EventHistory) -> Vec<String> {
    history.snapshot().into_iter().map(|e| e.id).collect()
}

#[test]
fn bound_is_one_hundred() {
    assert_eq!(MAX_EVENTS, 100);
}

#[test]
fn new_history_is_empty() {
    let history = EventHistory::new();
    assert_eq!(history.len(), 0);
    assert!(history.snapshot().is_empty());
}

#[test]
fn append_keeps_arrival_order_below_the_bound() {
    let mut history = EventHistory::new();
    for n in 0..5 {
        history.append(event(n));
    }
    assert_eq!(ids(&history), vec!["github_0", "github_1", "github_2", "github_3", "github_4"]);
}

#[test]
fn append_fills_up_to_the_bound_without_evicting() {
    let mut history = EventHistory::new();
    for n in 0..100 {
        history.append(event(n));
    }
    let seen = ids(&history);
    assert_eq!(seen.len(), 100);
    assert_eq!(seen[0], "github_0");
    assert_eq!(seen[99], "github_99");
}

#[test]
fn append_evicts_the_oldest_at_the_bound() {
    let mut history = EventHistory::new();
    for n in 0..101 {
        history.append(event(n));
    }
    let seen = ids(&history);
    assert_eq!(seen.len(), 100);
    assert_eq!(seen[0], "github_1");
    assert_eq!(seen[99], "github_100");
}

#[test]
fn after_many_appends_exactly_the_last_hundred_remain_in_order() {
    let mut history = EventHistory::new();
    for n in 0..257 {
        history.append(event(n));
        assert!(history.len() <= 100);
    }
    let expected: Vec<String> = (157..257).map(|n| format!("github_{}", n)).collect();
    assert_eq!(ids(&history), expected);
    assert_eq!(history.len(), 100);
}

#[test]
fn snapshot_is_a_copy() {
    let mut history = EventHistory::new();
    history.append(event(1));
    let mut copy = history.snapshot();
    copy[0].id = "changed".to_string();
    copy.push(event(2));
    assert_eq!(ids(&history), vec!["github_1"]);
    let again = history.snapshot();
    assert_eq!(again[0].commits.len(), 1);
    assert_eq!(again[0].commits[0].id, "c1");
    assert_eq!(again[0].repo, "acme/repo");
}

#[test]
fn clone_copies_every_field() {
    let first = event(3);
    let copy = first.clone();
    assert_eq!(copy.id, first.id);
    assert_eq!(copy.event_type, first.event_type);
    assert_eq!(copy.repo, first.repo);
    assert_eq!(copy.branch, first.branch);
    assert_eq!(copy.author, first.author);
    assert_eq!(copy.author_avatar, first.author_avatar);
    assert_eq!(copy.timestamp, first.timestamp);
    assert_eq!(copy.commits.len(), 1);
    let commit = copy.commits[0].clone();
    assert_eq!(commit.id, "c3");
    assert_eq!(commit.message, "fix bug");
    assert_eq!(commit.author, "ada");
    assert_eq!(commit.timestamp, "2024-01-01T00:00:00Z");
}
