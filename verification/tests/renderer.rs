use contribution_digest::github::format_follower_accomplishments;
use contribution_digest::github::Commit;
use contribution_digest::github::ContributionLink;
use contribution_digest::github::ContributionSummary;
use contribution_digest::github::RawLinkEntry;
use contribution_digest::github::RawLinkNode;
use contribution_digest::github::RawRecord;
use contribution_digest::github::RawRepo;
use contribution_digest::github::Repo;
use contribution_digest::github::RepoIssues;
use contribution_digest::github::RepoPullRequests;
use contribution_digest::slack::build_commit_contributions;
use contribution_digest::slack::build_contributions;
use contribution_digest::slack::build_issue_contributions;
use contribution_digest::slack::build_message;
use contribution_digest::slack::build_pull_request_contributions;
use contribution_digest::slack::build_repo_contributions;
use contribution_digest::slack::link_repo;

fn repo(name: &str, url: &str) -> Repo {
    Repo {
        name: name.to_owned(),
        url: url.to_owned(),
        language: "unknown".to_owned(),
        is_fork: false,
    }
}

fn empty_summary(name: &str) -> ContributionSummary {
    ContributionSummary {
        name: name.to_owned(),
        new_repos: vec![],
        forked_repos: vec![],
        commits: vec![],
        issues: vec![],
        pull_requests: vec![],
    }
}

#[test]
fn link_repo_uses_url_and_name() {
    assert_eq!(link_repo(&repo("Foo", "https://x/Foo")), "<https://x/Foo|Foo>");
}

#[test]
fn repo_clause_singular_and_plural() {
    assert_eq!(
        build_repo_contributions(&vec![repo("Foo", "https://x/Foo")]),
        "created the repo <https://x/Foo|Foo>"
    );
    assert_eq!(
        build_repo_contributions(&vec![
            repo("Foo", "https://x/Foo"),
            repo("Bar", "https://x/Bar"),
        ]),
        "created the repos <https://x/Foo|Foo> and <https://x/Bar|Bar>"
    );
}

#[test]
fn commit_clause_renders_repos_without_counts() {
    let clause = build_commit_contributions(&vec![
        Commit { count: 5, repo: repo("Foo", "https://x/Foo") },
        Commit { count: 2, repo: repo("Bar", "https://x/Bar") },
    ]);
    assert_eq!(
        clause,
        "pushed commits to <https://x/Foo|Foo> and <https://x/Bar|Bar>"
    );
    assert!(!clause.contains('5'));
    assert!(!clause.contains('2'));
}

#[test]
fn pull_request_clause_lists_numbers_in_parentheses() {
    let clause = build_pull_request_contributions(&vec![RepoPullRequests {
        repo: repo("Foo", "https://x/Foo"),
        pull_requests: vec![
            ContributionLink { number: 5, url: "u5".to_owned() },
            ContributionLink { number: 7, url: "u7".to_owned() },
        ],
    }]);
    assert_eq!(clause, "contributed to PRs in <https://x/Foo|Foo> (<u5|#5> and <u7|#7>)");
}

#[test]
fn issue_clause_with_empty_links_renders_empty_parentheses() {
    let clause = build_issue_contributions(&vec![RepoIssues {
        repo: repo("Bor", "https://x/Bor"),
        issues: vec![],
    }]);
    assert_eq!(clause, "helped out with issues in <https://x/Bor|Bor> ()");
}

#[test]
fn empty_activity_contributes_no_line() {
    assert_eq!(build_contributions(&empty_summary("Ghost")), "");
    let message = build_message(&vec![empty_summary("Ghost")]);
    assert_eq!(message, "Recent Open Source Contributions!\n");
    assert!(!message.contains("Ghost"));
}

#[test]
fn single_new_repo_scenario() {
    let record = RawRecord {
        name: Some("Alice".to_owned()),
        login: Some("alice".to_owned()),
        repositories: Some(vec![RawRepo {
            name: "Foo".to_owned(),
            url: "https://x/Foo".to_owned(),
            primary_language: None,
            is_fork: false,
        }]),
        commits: None,
        issues: None,
        pull_requests: None,
        pull_request_reviews: None,
    };
    let summary = format_follower_accomplishments(&record).unwrap();
    let message = build_message(&vec![summary]);
    assert_eq!(
        message,
        "Recent Open Source Contributions!\n- Alice created the repo <https://x/Foo|Foo>.\n"
    );
}

#[test]
fn pr_and_issue_scenario() {
    let record = RawRecord {
        name: Some("Bob".to_owned()),
        login: Some("bob".to_owned()),
        repositories: None,
        commits: None,
        issues: Some(vec![RawLinkEntry {
            repo: RawRepo {
                name: "Bor".to_owned(),
                url: "https://x/Bor".to_owned(),
                primary_language: None,
                is_fork: false,
            },
            nodes: Some(vec![RawLinkNode { number: Some(2), url: Some("u2".to_owned()) }]),
        }]),
        pull_requests: Some(vec![RawLinkEntry {
            repo: RawRepo {
                name: "Bar".to_owned(),
                url: "https://x/Bar".to_owned(),
                primary_language: None,
                is_fork: false,
            },
            nodes: Some(vec![RawLinkNode { number: Some(5), url: Some("u5".to_owned()) }]),
        }]),
        pull_request_reviews: None,
    };
    let summary = format_follower_accomplishments(&record).unwrap();
    let line = build_contributions(&summary);
    assert_eq!(
        line,
        "- Bob contributed to PRs in <https://x/Bar|Bar> (<u5|#5>); helped out with issues in <https://x/Bor|Bor> (<u2|#2>).\n"
    );
}

#[test]
fn second_person_without_activity_is_omitted() {
    let mut active = empty_summary("Alice");
    active.new_repos = vec![repo("Foo", "https://x/Foo")];
    let message = build_message(&vec![active, empty_summary("Bob")]);
    assert_eq!(
        message,
        "Recent Open Source Contributions!\n- Alice created the repo <https://x/Foo|Foo>.\n"
    );
    assert_eq!(message.matches("- ").count(), 1);
    assert!(!message.contains("Bob"));
}

#[test]
fn forked_repos_are_not_rendered() {
    let mut summary = empty_summary("Alice");
    summary.forked_repos = vec![repo("Copy", "https://x/Copy")];
    assert_eq!(build_contributions(&summary), "");
}

#[test]
fn clauses_join_with_semicolons_in_fixed_order() {
    let mut summary = empty_summary("Joe");
    summary.new_repos = vec![repo("Foo", "https://x/Foo")];
    summary.commits = vec![Commit { count: 1, repo: repo("Bar", "https://x/Bar") }];
    summary.issues = vec![RepoIssues {
        repo: repo("Bor", "https://x/Bor"),
        issues: vec![ContributionLink { number: 2, url: "u2".to_owned() }],
    }];
    summary.pull_requests = vec![RepoPullRequests {
        repo: repo("Baz", "https://x/Baz"),
        pull_requests: vec![ContributionLink { number: 5, url: "u5".to_owned() }],
    }];
    assert_eq!(
        build_contributions(&summary),
        "- Joe created the repo <https://x/Foo|Foo>; pushed commits to <https://x/Bar|Bar>; \
         contributed to PRs in <https://x/Baz|Baz> (<u5|#5>); \
         helped out with issues in <https://x/Bor|Bor> (<u2|#2>).\n"
    );
}
