use contribution_digest::github::format_follower_accomplishments;
use contribution_digest::github::map_commits;
use contribution_digest::github::map_issues;
use contribution_digest::github::map_pull_requests;
use contribution_digest::github::map_repo;
use contribution_digest::github::MapError;
use contribution_digest::github::RawCommitEntry;
use contribution_digest::github::RawLinkEntry;
use contribution_digest::github::RawLinkNode;
use contribution_digest::github::RawRecord;
use contribution_digest::github::RawRepo;

fn raw_repo(name: &str, is_fork: bool) -> RawRepo {
    RawRepo {
        name: name.to_owned(),
        url: format!("https://x/{}", name),
        primary_language: Some("Rust".to_owned()),
        is_fork,
    }
}

fn empty_record() -> RawRecord {
    RawRecord {
        name: Some("Alice".to_owned()),
        login: Some("alice".to_owned()),
        repositories: None,
        commits: None,
        issues: None,
        pull_requests: None,
        pull_request_reviews: None,
    }
}

#[test]
fn name_prefers_display_name() {
    let summary = format_follower_accomplishments(&empty_record()).unwrap();
    assert_eq!(summary.name, "Alice");
}

#[test]
fn name_falls_back_to_login() {
    let mut record = empty_record();
    record.name = None;
    record.login = Some("octocat".to_owned());
    let summary = format_follower_accomplishments(&record).unwrap();
    assert_eq!(summary.name, "octocat");
}

#[test]
fn missing_name_and_login_is_fatal() {
    let mut record = empty_record();
    record.name = None;
    record.login = None;
    assert_eq!(
        format_follower_accomplishments(&record).unwrap_err(),
        MapError::MissingRequiredField
    );
}

#[test]
fn absent_containers_become_empty_sequences() {
    let summary = format_follower_accomplishments(&empty_record()).unwrap();
    assert!(summary.new_repos.is_empty());
    assert!(summary.forked_repos.is_empty());
    assert!(summary.commits.is_empty());
    assert!(summary.issues.is_empty());
    assert!(summary.pull_requests.is_empty());
}

#[test]
fn repos_partition_by_fork_flag_in_source_order() {
    let mut record = empty_record();
    record.repositories = Some(vec![
        raw_repo("a", false),
        raw_repo("b", true),
        raw_repo("c", false),
        raw_repo("d", true),
    ]);
    let summary = format_follower_accomplishments(&record).unwrap();
    let new_names: Vec<&str> = summary.new_repos.iter().map(|r| r.name.as_str()).collect();
    let forked_names: Vec<&str> = summary
        .forked_repos
        .iter()
        .map(|r| r.name.as_str())
        .collect();
    assert_eq!(new_names, vec!["a", "c"]);
    assert_eq!(forked_names, vec!["b", "d"]);
    assert!(summary.new_repos.iter().all(|r| !r.is_fork));
    assert!(summary.forked_repos.iter().all(|r| r.is_fork));
}

#[test]
fn missing_language_defaults_to_unknown() {
    let repo = map_repo(&RawRepo {
        name: "Foo".to_owned(),
        url: "https://x/Foo".to_owned(),
        primary_language: None,
        is_fork: false,
    });
    assert_eq!(repo.language, "unknown");
    let repo = map_repo(&raw_repo("Bar", false));
    assert_eq!(repo.language, "Rust");
}

#[test]
fn commit_entries_keep_counts_and_repos() {
    let commits = map_commits(&vec![
        RawCommitEntry { repo: raw_repo("Foo", false), total_count: 5 },
        RawCommitEntry { repo: raw_repo("Bar", false), total_count: 0 },
    ]);
    assert_eq!(commits.len(), 2);
    assert_eq!(commits[0].count, 5);
    assert_eq!(commits[0].repo.name, "Foo");
    assert_eq!(commits[1].count, 0);
}

#[test]
fn issue_entry_without_nodes_yields_empty_sequence() {
    let issues = map_issues(&vec![RawLinkEntry { repo: raw_repo("Foo", false), nodes: None }])
        .unwrap();
    assert_eq!(issues.len(), 1);
    assert!(issues[0].issues.is_empty());
}

#[test]
fn malformed_issue_node_is_fatal() {
    let entries = vec![RawLinkEntry {
        repo: raw_repo("Foo", false),
        nodes: Some(vec![RawLinkNode { number: Some(2), url: None }]),
    }];
    assert_eq!(map_issues(&entries).unwrap_err(), MapError::MalformedLink);

    let entries = vec![RawLinkEntry {
        repo: raw_repo("Foo", false),
        nodes: Some(vec![RawLinkNode { number: None, url: Some("u2".to_owned()) }]),
    }];
    assert_eq!(map_pull_requests(&entries).unwrap_err(), MapError::MalformedLink);

    let mut record = empty_record();
    record.issues = Some(entries);
    assert_eq!(
        format_follower_accomplishments(&record).unwrap_err(),
        MapError::MalformedLink
    );
}

#[test]
fn same_pull_request_authored_and_reviewed_is_kept_twice() {
    let entry = || {
        vec![RawLinkEntry {
            repo: raw_repo("Bar", false),
            nodes: Some(vec![RawLinkNode { number: Some(5), url: Some("u5".to_owned()) }]),
        }]
    };
    let mut record = empty_record();
    record.pull_requests = Some(entry());
    record.pull_request_reviews = Some(entry());
    let summary = format_follower_accomplishments(&record).unwrap();
    assert_eq!(summary.pull_requests.len(), 2);
    assert_eq!(summary.pull_requests[0].pull_requests[0].number, 5);
    assert_eq!(summary.pull_requests[1].pull_requests[0].number, 5);
}

#[test]
fn authored_pull_requests_precede_reviews() {
    let mut record = empty_record();
    record.pull_requests = Some(vec![RawLinkEntry {
        repo: raw_repo("Authored", false),
        nodes: Some(vec![RawLinkNode { number: Some(5), url: Some("u5".to_owned()) }]),
    }]);
    record.pull_request_reviews = Some(vec![RawLinkEntry {
        repo: raw_repo("Reviewed", false),
        nodes: Some(vec![RawLinkNode { number: Some(9), url: Some("u9".to_owned()) }]),
    }]);
    let summary = format_follower_accomplishments(&record).unwrap();
    assert_eq!(summary.pull_requests.len(), 2);
    assert_eq!(summary.pull_requests[0].repo.name, "Authored");
    assert_eq!(summary.pull_requests[0].pull_requests[0].number, 5);
    assert_eq!(summary.pull_requests[1].repo.name, "Reviewed");
    assert_eq!(summary.pull_requests[1].pull_requests[0].number, 9);
}
