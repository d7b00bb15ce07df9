//! Normalization of raw per-person activity records.
//!
//! A [`RawRecord`] is the already-fetched activity of one person: an optional
//! display name, a login, and per-category containers of repository,
//! commit, issue, pull-request and review activity, any of which may be
//! absent. [`format_follower_accomplishments`] turns one record into a
//! [`ContributionSummary`], partitioning created repositories into new and
//! forked ones, substituting empty sequences for absent containers, and
//! failing fatally on a record whose name cannot be resolved or whose
//! issue or pull-request nodes are missing a number or a URL.

use vstd::prelude::*;
use vstd::multiset::Multiset;

verus! {

/// What the data-fetch side needs to query the activity source: an API
/// token and the length of the reporting window in days.
pub struct GitHubConfig {
    pub token: String,
    pub report_days_in_past: i64,
}

// ------------------------------------------------------------------
// Normalized entities
// ------------------------------------------------------------------

/// One repository touched by a person.
#[derive(Debug)]
pub struct Repo {
    pub name: String,
    pub url: String,
    pub language: String,
    pub is_fork: bool,
}

/// One issue or pull-request reference.
#[derive(Debug)]
pub struct ContributionLink {
    pub number: i64,
    pub url: String,
}

/// Commits pushed to one repository, with the total count in the window.
#[derive(Debug)]
pub struct Commit {
    pub count: i64,
    pub repo: Repo,
}

/// Issue references grouped by repository.
#[derive(Debug)]
pub struct RepoIssues {
    pub repo: Repo,
    pub issues: Vec<ContributionLink>,
}

/// Pull-request references grouped by repository; used both for authored
/// and for reviewed pull requests.
#[derive(Debug)]
pub struct RepoPullRequests {
    pub repo: Repo,
    pub pull_requests: Vec<ContributionLink>,
}

/// The normalized activity of one person for one digest run.
#[derive(Debug)]
pub struct ContributionSummary {
    pub name: String,
    pub new_repos: Vec<Repo>,
    pub forked_repos: Vec<Repo>,
    pub commits: Vec<Commit>,
    pub issues: Vec<RepoIssues>,
    pub pull_requests: Vec<RepoPullRequests>,
}

// ------------------------------------------------------------------
// Mathematical views of the entities
// ------------------------------------------------------------------

#[verifier::ext_equal]
pub ghost struct RepoView {
    pub name: Seq<char>,
    pub url: Seq<char>,
    pub language: Seq<char>,
    pub is_fork: bool,
}

#[verifier::ext_equal]
pub ghost struct ContributionLinkView {
    pub number: int,
    pub url: Seq<char>,
}

#[verifier::ext_equal]
pub ghost struct CommitView {
    pub count: int,
    pub repo: RepoView,
}

#[verifier::ext_equal]
pub ghost struct RepoIssuesView {
    pub repo: RepoView,
    pub issues: Seq<ContributionLinkView>,
}

#[verifier::ext_equal]
pub ghost struct RepoPullRequestsView {
    pub repo: RepoView,
    pub pull_requests: Seq<ContributionLinkView>,
}

#[verifier::ext_equal]
pub ghost struct ContributionSummaryView {
    pub name: Seq<char>,
    pub new_repos: Seq<RepoView>,
    pub forked_repos: Seq<RepoView>,
    pub commits: Seq<CommitView>,
    pub issues: Seq<RepoIssuesView>,
    pub pull_requests: Seq<RepoPullRequestsView>,
}

impl View for Repo {
    type V = RepoView;

    open spec fn view(&self) -> RepoView {
        RepoView {
            name: self.name@,
            url: self.url@,
            language: self.language@,
            is_fork: self.is_fork,
        }
    }
}

impl DeepView for Repo {
    type V = RepoView;

    open spec fn deep_view(&self) -> RepoView {
        self@
    }
}

impl View for ContributionLink {
    type V = ContributionLinkView;

    open spec fn view(&self) -> ContributionLinkView {
        ContributionLinkView { number: self.number as int, url: self.url@ }
    }
}

impl DeepView for ContributionLink {
    type V = ContributionLinkView;

    open spec fn deep_view(&self) -> ContributionLinkView {
        self@
    }
}

impl View for Commit {
    type V = CommitView;

    open spec fn view(&self) -> CommitView {
        CommitView { count: self.count as int, repo: self.repo@ }
    }
}

impl DeepView for Commit {
    type V = CommitView;

    open spec fn deep_view(&self) -> CommitView {
        self@
    }
}

impl View for RepoIssues {
    type V = RepoIssuesView;

    open spec fn view(&self) -> RepoIssuesView {
        RepoIssuesView { repo: self.repo@, issues: self.issues.deep_view() }
    }
}

impl DeepView for RepoIssues {
    type V = RepoIssuesView;

    open spec fn deep_view(&self) -> RepoIssuesView {
        self@
    }
}

impl View for RepoPullRequests {
    type V = RepoPullRequestsView;

    open spec fn view(&self) -> RepoPullRequestsView {
        RepoPullRequestsView {
            repo: self.repo@,
            pull_requests: self.pull_requests.deep_view(),
        }
    }
}

impl DeepView for RepoPullRequests {
    type V = RepoPullRequestsView;

    open spec fn deep_view(&self) -> RepoPullRequestsView {
        self@
    }
}

impl View for ContributionSummary {
    type V = ContributionSummaryView;

    open spec fn view(&self) -> ContributionSummaryView {
        ContributionSummaryView {
            name: self.name@,
            new_repos: self.new_repos.deep_view(),
            forked_repos: self.forked_repos.deep_view(),
            commits: self.commits.deep_view(),
            issues: self.issues.deep_view(),
            pull_requests: self.pull_requests.deep_view(),
        }
    }
}

impl DeepView for ContributionSummary {
    type V = ContributionSummaryView;

    open spec fn deep_view(&self) -> ContributionSummaryView {
        self@
    }
}

// ------------------------------------------------------------------
// Raw per-person activity records, as the data-fetch side hands them in
// ------------------------------------------------------------------

/// A repository-creation node of the raw record. The primary language may
/// be absent in the source data.
#[derive(Debug)]
pub struct RawRepo {
    pub name: String,
    pub url: String,
    pub primary_language: Option<String>,
    pub is_fork: bool,
}

/// One per-repository commit-count entry of the raw record.
#[derive(Debug)]
pub struct RawCommitEntry {
    pub repo: RawRepo,
    pub total_count: i64,
}

/// One issue or pull-request node of the raw record. The source data
/// contract guarantees number and URL when the node is present; a node
/// missing either is malformed.
#[derive(Debug)]
pub struct RawLinkNode {
    pub number: Option<i64>,
    pub url: Option<String>,
}

/// One per-repository issue or pull-request entry of the raw record.
/// The node container itself may be absent.
#[derive(Debug)]
pub struct RawLinkEntry {
    pub repo: RawRepo,
    pub nodes: Option<Vec<RawLinkNode>>,
}

/// The raw activity record of one person. Every per-category container
/// may be absent; an absent container means no activity of that kind.
#[derive(Debug)]
pub struct RawRecord {
    pub name: Option<String>,
    pub login: Option<String>,
    pub repositories: Option<Vec<RawRepo>>,
    pub commits: Option<Vec<RawCommitEntry>>,
    pub issues: Option<Vec<RawLinkEntry>>,
    pub pull_requests: Option<Vec<RawLinkEntry>>,
    pub pull_request_reviews: Option<Vec<RawLinkEntry>>,
}

#[verifier::ext_equal]
pub ghost struct RawRepoView {
    pub name: Seq<char>,
    pub url: Seq<char>,
    pub primary_language: Option<Seq<char>>,
    pub is_fork: bool,
}

#[verifier::ext_equal]
pub ghost struct RawCommitEntryView {
    pub repo: RawRepoView,
    pub total_count: int,
}

#[verifier::ext_equal]
pub ghost struct RawLinkNodeView {
    pub number: Option<int>,
    pub url: Option<Seq<char>>,
}

#[verifier::ext_equal]
pub ghost struct RawLinkEntryView {
    pub repo: RawRepoView,
    pub nodes: Option<Seq<RawLinkNodeView>>,
}

#[verifier::ext_equal]
pub ghost struct RawRecordView {
    pub name: Option<Seq<char>>,
    pub login: Option<Seq<char>>,
    pub repositories: Option<Seq<RawRepoView>>,
    pub commits: Option<Seq<RawCommitEntryView>>,
    pub issues: Option<Seq<RawLinkEntryView>>,
    pub pull_requests: Option<Seq<RawLinkEntryView>>,
    pub pull_request_reviews: Option<Seq<RawLinkEntryView>>,
}

impl View for RawRepo {
    type V = RawRepoView;

    open spec fn view(&self) -> RawRepoView {
        RawRepoView {
            name: self.name@,
            url: self.url@,
            primary_language: self.primary_language.deep_view(),
            is_fork: self.is_fork,
        }
    }
}

impl DeepView for RawRepo {
    type V = RawRepoView;

    open spec fn deep_view(&self) -> RawRepoView {
        self@
    }
}

impl View for RawCommitEntry {
    type V = RawCommitEntryView;

    open spec fn view(&self) -> RawCommitEntryView {
        RawCommitEntryView { repo: self.repo@, total_count: self.total_count as int }
    }
}

impl DeepView for RawCommitEntry {
    type V = RawCommitEntryView;

    open spec fn deep_view(&self) -> RawCommitEntryView {
        self@
    }
}

impl View for RawLinkNode {
    type V = RawLinkNodeView;

    open spec fn view(&self) -> RawLinkNodeView {
        RawLinkNodeView {
            number: match self.number {
                Some(n) => Some(n as int),
                None => None,
            },
            url: self.url.deep_view(),
        }
    }
}

impl DeepView for RawLinkNode {
    type V = RawLinkNodeView;

    open spec fn deep_view(&self) -> RawLinkNodeView {
        self@
    }
}

impl View for RawLinkEntry {
    type V = RawLinkEntryView;

    open spec fn view(&self) -> RawLinkEntryView {
        RawLinkEntryView { repo: self.repo@, nodes: self.nodes.deep_view() }
    }
}

impl DeepView for RawLinkEntry {
    type V = RawLinkEntryView;

    open spec fn deep_view(&self) -> RawLinkEntryView {
        self@
    }
}

impl View for RawRecord {
    type V = RawRecordView;

    open spec fn view(&self) -> RawRecordView {
        RawRecordView {
            name: self.name.deep_view(),
            login: self.login.deep_view(),
            repositories: self.repositories.deep_view(),
            commits: self.commits.deep_view(),
            issues: self.issues.deep_view(),
            pull_requests: self.pull_requests.deep_view(),
            pull_request_reviews: self.pull_request_reviews.deep_view(),
        }
    }
}

impl DeepView for RawRecord {
    type V = RawRecordView;

    open spec fn deep_view(&self) -> RawRecordView {
        self@
    }
}

// ------------------------------------------------------------------
// Errors of the mapping stage
// ------------------------------------------------------------------

/// Why a raw record cannot be normalized. Either error is fatal for the
/// whole run: the digest is not partially rendered.
#[derive(Debug, PartialEq, Eq, Clone, Copy)]
pub enum MapError {
    /// The record lacks both a display name and a login.
    MissingRequiredField,
    /// A present issue or pull-request node lacks its number or its URL.
    MalformedLink,
}

// ------------------------------------------------------------------
// What the mapping produces, stated over the views
// ------------------------------------------------------------------

/// An absent container stands for an empty sequence.
pub open spec fn opt_seq<T>(o: Option<Seq<T>>) -> Seq<T> {
    match o {
        Some(s) => s,
        None => Seq::empty(),
    }
}

/// How one raw repository node is normalized: an absent primary language
/// becomes the sentinel `"unknown"`.
pub open spec fn spec_map_repo(r: RawRepoView) -> RepoView {
    RepoView {
        name: r.name,
        url: r.url,
        language: match r.primary_language {
            Some(l) => l,
            None => "unknown"@,
        },
        is_fork: r.is_fork,
    }
}

pub open spec fn spec_map_commit(c: RawCommitEntryView) -> CommitView {
    CommitView { count: c.total_count, repo: spec_map_repo(c.repo) }
}

/// A present node carries both its number and its URL.
pub open spec fn link_node_ok(n: RawLinkNodeView) -> bool {
    n.number is Some && n.url is Some
}

/// Every node of the sequence is well formed.
pub open spec fn nodes_ok(s: Seq<RawLinkNodeView>) -> bool {
    forall|j: int| 0 <= j < s.len() ==> link_node_ok(#[trigger] s[j])
}

pub open spec fn spec_map_link(n: RawLinkNodeView) -> ContributionLinkView
    recommends
        link_node_ok(n),
{
    ContributionLinkView {
        number: match n.number {
            Some(k) => k,
            None => 0,
        },
        url: match n.url {
            Some(u) => u,
            None => Seq::empty(),
        },
    }
}

pub open spec fn entry_nodes(e: RawLinkEntryView) -> Seq<RawLinkNodeView> {
    opt_seq(e.nodes)
}

/// Every node of the entry is well formed.
pub open spec fn entry_ok(e: RawLinkEntryView) -> bool {
    nodes_ok(entry_nodes(e))
}

/// Every node of every entry is well formed.
pub open spec fn entries_ok(s: Seq<RawLinkEntryView>) -> bool {
    forall|i: int| 0 <= i < s.len() ==> entry_ok(#[trigger] s[i])
}

pub open spec fn spec_map_issue_entry(e: RawLinkEntryView) -> RepoIssuesView {
    RepoIssuesView {
        repo: spec_map_repo(e.repo),
        issues: entry_nodes(e).map_values(|n: RawLinkNodeView| spec_map_link(n)),
    }
}

pub open spec fn spec_map_pull_request_entry(e: RawLinkEntryView) -> RepoPullRequestsView {
    RepoPullRequestsView {
        repo: spec_map_repo(e.repo),
        pull_requests: entry_nodes(e).map_values(|n: RawLinkNodeView| spec_map_link(n)),
    }
}

/// The record's name is resolvable: a display name or at least a login.
pub open spec fn name_resolvable(f: RawRecordView) -> bool {
    f.name is Some || f.login is Some
}

/// Every issue, pull-request and review node of the record is well formed.
pub open spec fn record_links_ok(f: RawRecordView) -> bool {
    &&& entries_ok(opt_seq(f.issues))
    &&& entries_ok(opt_seq(f.pull_requests))
    &&& entries_ok(opt_seq(f.pull_request_reviews))
}

/// The normalized summary of a well-formed raw record: repositories
/// partitioned by the fork flag with source order preserved, absent
/// containers read as empty, authored pull requests followed by reviewed
/// ones, and the display name falling back to the login.
pub open spec fn spec_summary(f: RawRecordView) -> ContributionSummaryView
    recommends
        name_resolvable(f),
        record_links_ok(f),
{
    let repos = opt_seq(f.repositories).map_values(|r: RawRepoView| spec_map_repo(r));
    ContributionSummaryView {
        name: match f.name {
            Some(n) => n,
            None => match f.login {
                Some(l) => l,
                None => Seq::empty(),
            },
        },
        new_repos: repos.filter(|r: RepoView| !r.is_fork),
        forked_repos: repos.filter(|r: RepoView| r.is_fork),
        commits: opt_seq(f.commits).map_values(|c: RawCommitEntryView| spec_map_commit(c)),
        issues: opt_seq(f.issues).map_values(|e: RawLinkEntryView| spec_map_issue_entry(e)),
        pull_requests: opt_seq(f.pull_requests).map_values(
            |e: RawLinkEntryView| spec_map_pull_request_entry(e),
        ) + opt_seq(f.pull_request_reviews).map_values(
            |e: RawLinkEntryView| spec_map_pull_request_entry(e),
        ),
    }
}

// ------------------------------------------------------------------
// The mapper
// ------------------------------------------------------------------

proof fn lemma_filter_push<A>(s: Seq<A>, pred: spec_fn(A) -> bool, x: A)
    ensures
        s.push(x).filter(pred) == if pred(x) {
            s.filter(pred).push(x)
        } else {
            s.filter(pred)
        },
{
    reveal_with_fuel(Seq::filter, 2);
    assert(s.push(x).drop_last() =~= s);
    assert(s.push(x).last() == x);
    if pred(x) {
        assert(s.push(x).filter(pred) =~= s.filter(pred).push(x));
    }
}

/// Partition law: splitting a sequence of repositories by the fork flag
/// is exact. No repository lands in both buckets, and the two buckets
/// together hold exactly the input repositories, multiplicities included.
pub proof fn lemma_repo_partition(repos: Seq<RepoView>)
    ensures
        repos.filter(|r: RepoView| !r.is_fork).to_set().intersect(
            repos.filter(|r: RepoView| r.is_fork).to_set(),
        ) == Set::<RepoView>::empty(),
        repos.filter(|r: RepoView| !r.is_fork).to_multiset().add(
            repos.filter(|r: RepoView| r.is_fork).to_multiset(),
        ) == repos.to_multiset(),
    decreases repos.len(),
{
    broadcast use vstd::seq_lib::group_to_multiset_ensures;
    broadcast use vstd::seq_lib::group_filter_ensures;

    let keep = |r: RepoView| !r.is_fork;
    let fork = |r: RepoView| r.is_fork;
    let new_repos = repos.filter(keep);
    let forked = repos.filter(fork);

    assert(new_repos.to_set().intersect(forked.to_set()) =~= Set::<RepoView>::empty()) by {
        assert forall|r: RepoView| !(new_repos.contains(r) && forked.contains(r)) by {
            if new_repos.contains(r) && forked.contains(r) {
                let i = choose|i: int| 0 <= i < new_repos.len() && new_repos[i] == r;
                let j = choose|j: int| 0 <= j < forked.len() && forked[j] == r;
                assert(keep(new_repos[i]));
                assert(fork(forked[j]));
            }
        }
    }

    if repos.len() == 0 {
        reveal_with_fuel(Seq::filter, 1);
        assert(new_repos =~= Seq::<RepoView>::empty());
        assert(forked =~= Seq::<RepoView>::empty());
        assert(repos =~= Seq::<RepoView>::empty());
        assert(Seq::<RepoView>::empty().to_multiset() =~= Multiset::<RepoView>::empty());
        assert(new_repos.to_multiset().add(forked.to_multiset()) =~= repos.to_multiset());
    } else {
        let prefix = repos.drop_last();
        let last = repos.last();
        lemma_repo_partition(prefix);
        assert(repos =~= prefix.push(last));
        lemma_filter_push(prefix, keep, last);
        lemma_filter_push(prefix, fork, last);
        assert(repos.to_multiset() =~= prefix.to_multiset().insert(last));
        if last.is_fork {
            assert(forked =~= prefix.filter(fork).push(last));
            assert(new_repos =~= prefix.filter(keep));
            assert(forked.to_multiset() =~= prefix.filter(fork).to_multiset().insert(last));
        } else {
            assert(new_repos =~= prefix.filter(keep).push(last));
            assert(forked =~= prefix.filter(fork));
            assert(new_repos.to_multiset() =~= prefix.filter(keep).to_multiset().insert(last));
        }
        assert(new_repos.to_multiset().add(forked.to_multiset()) =~= repos.to_multiset());
    }
}

/// Normalizes one raw repository node.
pub fn map_repo(repo: &RawRepo) -> (r: Repo)
    ensures
        r@ == spec_map_repo(repo@),
{
    let language = match &repo.primary_language {
        Some(l) => l.clone(),
        None => String::from_str("unknown"),
    };
    Repo { name: repo.name.clone(), url: repo.url.clone(), language, is_fork: repo.is_fork }
}

/// Normalizes the per-repository commit-count entries.
pub fn map_commits(entries: &Vec<RawCommitEntry>) -> (r: Vec<Commit>)
    ensures
        r.deep_view() == entries.deep_view().map_values(
            |c: RawCommitEntryView| spec_map_commit(c),
        ),
{
    let ghost es = entries.deep_view();
    let mut out: Vec<Commit> = Vec::new();
    let mut i: usize = 0;
    while i < entries.len()
        invariant
            i <= entries.len(),
            es == entries.deep_view(),
            out.deep_view() == es.take(i as int).map_values(
                |c: RawCommitEntryView| spec_map_commit(c),
            ),
        decreases entries.len() - i,
    {
        let e = &entries[i];
        let repo = map_repo(&e.repo);
        let c = Commit { count: e.total_count, repo };
        let ghost cv = c@;
        let ghost pre = out.deep_view();
        out.push(c);
        proof {
            assert(out.deep_view() =~= pre.push(cv));
            assert(pre.push(cv) =~= es.take(i + 1).map_values(
                |c: RawCommitEntryView| spec_map_commit(c),
            ));
        }
        i = i + 1;
    }
    proof {
        assert(es.take(entries.deep_view().len() as int) =~= es);
    }
    out
}

/// Normalizes the nodes of one entry, or reports the first malformed one.
fn map_link_nodes(nodes: &Vec<RawLinkNode>) -> (r: Result<Vec<ContributionLink>, MapError>)
    ensures
        match r {
            Ok(v) => nodes_ok(nodes.deep_view()) && v.deep_view() == nodes.deep_view().map_values(
                |n: RawLinkNodeView| spec_map_link(n),
            ),
            Err(e) => e == MapError::MalformedLink && !nodes_ok(nodes.deep_view()),
        },
{
    let ghost ns = nodes.deep_view();
    let mut out: Vec<ContributionLink> = Vec::new();
    let mut j: usize = 0;
    while j < nodes.len()
        invariant
            j <= nodes.len(),
            ns == nodes.deep_view(),
            nodes_ok(ns.take(j as int)),
            out.deep_view() == ns.take(j as int).map_values(
                |n: RawLinkNodeView| spec_map_link(n),
            ),
        decreases nodes.len() - j,
    {
        let node = &nodes[j];
        match (&node.number, &node.url) {
            (Some(number), Some(url)) => {
                let l = ContributionLink { number: *number, url: url.clone() };
                let ghost lv = l@;
                let ghost pre = out.deep_view();
                out.push(l);
                proof {
                    assert(out.deep_view() =~= pre.push(lv));
                    assert(nodes_ok(ns.take(j + 1)));
                    assert(pre.push(lv) =~= ns.take(j + 1).map_values(
                        |n: RawLinkNodeView| spec_map_link(n),
                    ));
                }
            },
            _ => {
                assert(!link_node_ok(ns[j as int]));
                return Err(MapError::MalformedLink);
            },
        }
        j = j + 1;
    }
    proof {
        assert(ns.take(nodes.deep_view().len() as int) =~= ns);
    }
    Ok(out)
}

/// Normalizes the per-repository issue entries. An entry with no nodes
/// yields an empty issue sequence; a malformed node is fatal.
pub fn map_issues(entries: &Vec<RawLinkEntry>) -> (r: Result<Vec<RepoIssues>, MapError>)
    ensures
        match r {
            Ok(v) => entries_ok(entries.deep_view()) && v.deep_view()
                == entries.deep_view().map_values(|e: RawLinkEntryView| spec_map_issue_entry(e)),
            Err(e) => e == MapError::MalformedLink && !entries_ok(entries.deep_view()),
        },
{
    let ghost es = entries.deep_view();
    let mut out: Vec<RepoIssues> = Vec::new();
    let mut i: usize = 0;
    while i < entries.len()
        invariant
            i <= entries.len(),
            es == entries.deep_view(),
            entries_ok(es.take(i as int)),
            out.deep_view() == es.take(i as int).map_values(
                |e: RawLinkEntryView| spec_map_issue_entry(e),
            ),
        decreases entries.len() - i,
    {
        let e = &entries[i];
        let issues = match &e.nodes {
            Some(nodes) => match map_link_nodes(nodes) {
                Ok(v) => v,
                Err(err) => {
                    assert(!entry_ok(es[i as int]));
                    return Err(err);
                },
            },
            None => Vec::new(),
        };
        let repo = map_repo(&e.repo);
        let entry = RepoIssues { repo, issues };
        let ghost ev = entry@;
        let ghost pre = out.deep_view();
        out.push(entry);
        proof {
            assert(entry_ok(es[i as int]));
            assert(entries_ok(es.take(i + 1)));
            assert(out.deep_view() =~= pre.push(ev));
            assert(pre.push(ev) =~~= es.take(i + 1).map_values(
                |e: RawLinkEntryView| spec_map_issue_entry(e),
            ));
        }
        i = i + 1;
    }
    proof {
        assert(es.take(entries.deep_view().len() as int) =~= es);
    }
    Ok(out)
}

/// Normalizes per-repository pull-request entries; used both for authored
/// pull requests and for reviews, which share one raw shape.
pub fn map_pull_requests(entries: &Vec<RawLinkEntry>) -> (r: Result<
    Vec<RepoPullRequests>,
    MapError,
>)
    ensures
        match r {
            Ok(v) => entries_ok(entries.deep_view()) && v.deep_view()
                == entries.deep_view().map_values(
                |e: RawLinkEntryView| spec_map_pull_request_entry(e),
            ),
            Err(e) => e == MapError::MalformedLink && !entries_ok(entries.deep_view()),
        },
{
    let ghost es = entries.deep_view();
    let mut out: Vec<RepoPullRequests> = Vec::new();
    let mut i: usize = 0;
    while i < entries.len()
        invariant
            i <= entries.len(),
            es == entries.deep_view(),
            entries_ok(es.take(i as int)),
            out.deep_view() == es.take(i as int).map_values(
                |e: RawLinkEntryView| spec_map_pull_request_entry(e),
            ),
        decreases entries.len() - i,
    {
        let e = &entries[i];
        let pull_requests = match &e.nodes {
            Some(nodes) => match map_link_nodes(nodes) {
                Ok(v) => v,
                Err(err) => {
                    assert(!entry_ok(es[i as int]));
                    return Err(err);
                },
            },
            None => Vec::new(),
        };
        let repo = map_repo(&e.repo);
        let entry = RepoPullRequests { repo, pull_requests };
        let ghost ev = entry@;
        let ghost pre = out.deep_view();
        out.push(entry);
        proof {
            assert(entry_ok(es[i as int]));
            assert(entries_ok(es.take(i + 1)));
            assert(out.deep_view() =~= pre.push(ev));
            assert(pre.push(ev) =~~= es.take(i + 1).map_values(
                |e: RawLinkEntryView| spec_map_pull_request_entry(e),
            ));
        }
        i = i + 1;
    }
    proof {
        assert(es.take(entries.deep_view().len() as int) =~= es);
    }
    Ok(out)
}

/// Turns one raw record into its contribution summary.
///
/// Succeeds exactly on the records whose name is resolvable and whose
/// issue, pull-request and review nodes all carry a number and a URL;
/// otherwise reports which of the two conditions failed, name first.
pub fn format_follower_accomplishments(follower: &RawRecord) -> (r: Result<
    ContributionSummary,
    MapError,
>)
    ensures
        r is Ok <==> name_resolvable(follower@) && record_links_ok(follower@),
        r matches Ok(s) ==> s@ == spec_summary(follower@),
        r matches Err(e) ==> e == (if !name_resolvable(follower@) {
            MapError::MissingRequiredField
        } else {
            MapError::MalformedLink
        }),
{
    let name: String = match &follower.name {
        Some(n) => n.clone(),
        None => match &follower.login {
            Some(l) => l.clone(),
            None => {
                return Err(MapError::MissingRequiredField);
            },
        },
    };

    let ghost mapped = opt_seq(follower@.repositories).map_values(
        |r: RawRepoView| spec_map_repo(r),
    );
    let mut new_repos: Vec<Repo> = Vec::new();
    let mut forked_repos: Vec<Repo> = Vec::new();
    match &follower.repositories {
        Some(rs) => {
            let ghost rv = rs.deep_view();
            let mut i: usize = 0;
            while i < rs.len()
                invariant
                    i <= rs.len(),
                    rv == rs.deep_view(),
                    new_repos.deep_view() == rv.take(i as int).map_values(
                        |r: RawRepoView| spec_map_repo(r),
                    ).filter(|r: RepoView| !r.is_fork),
                    forked_repos.deep_view() == rv.take(i as int).map_values(
                        |r: RawRepoView| spec_map_repo(r),
                    ).filter(|r: RepoView| r.is_fork),
                decreases rs.len() - i,
            {
                let repo = map_repo(&rs[i]);
                let ghost prefix = rv.take(i as int).map_values(|r: RawRepoView| spec_map_repo(r));
                proof {
                    assert(rv.take(i + 1).map_values(|r: RawRepoView| spec_map_repo(r)) =~= prefix.push(
                        repo@,
                    ));
                    lemma_filter_push(prefix, |r: RepoView| !r.is_fork, repo@);
                    lemma_filter_push(prefix, |r: RepoView| r.is_fork, repo@);
                }
                if repo.is_fork {
                    forked_repos.push(repo);
                    proof {
                        assert(forked_repos.deep_view() =~= prefix.filter(
                            |r: RepoView| r.is_fork,
                        ).push(repo@));
                    }
                } else {
                    new_repos.push(repo);
                    proof {
                        assert(new_repos.deep_view() =~= prefix.filter(
                            |r: RepoView| !r.is_fork,
                        ).push(repo@));
                    }
                }
                i = i + 1;
            }
            proof {
                assert(rv.take(rs.deep_view().len() as int) =~= rv);
            }
        },
        None => {
            proof {
                assert(mapped =~= Seq::<RepoView>::empty());
                reveal_with_fuel(Seq::filter, 1);
                assert(new_repos.deep_view() =~= mapped.filter(|r: RepoView| !r.is_fork));
                assert(forked_repos.deep_view() =~= mapped.filter(|r: RepoView| r.is_fork));
            }
        },
    }

    let commits: Vec<Commit> = match &follower.commits {
        Some(cs) => map_commits(cs),
        None => Vec::new(),
    };
    proof {
        assert(commits.deep_view() =~= opt_seq(follower@.commits).map_values(
            |c: RawCommitEntryView| spec_map_commit(c),
        ));
    }

    let issues: Vec<RepoIssues> = match &follower.issues {
        Some(es) => match map_issues(es) {
            Ok(v) => v,
            Err(e) => {
                return Err(e);
            },
        },
        None => Vec::new(),
    };
    proof {
        assert(issues.deep_view() =~= opt_seq(follower@.issues).map_values(
            |e: RawLinkEntryView| spec_map_issue_entry(e),
        ));
    }

    let mut pull_requests: Vec<RepoPullRequests> = match &follower.pull_requests {
        Some(es) => match map_pull_requests(es) {
            Ok(v) => v,
            Err(e) => {
                return Err(e);
            },
        },
        None => Vec::new(),
    };
    let ghost authored = pull_requests.deep_view();
    let mut reviews: Vec<RepoPullRequests> = match &follower.pull_request_reviews {
        Some(es) => match map_pull_requests(es) {
            Ok(v) => v,
            Err(e) => {
                return Err(e);
            },
        },
        None => Vec::new(),
    };
    let ghost reviewed = reviews.deep_view();
    pull_requests.append(&mut reviews);
    proof {
        assert(pull_requests.deep_view() =~= authored + reviewed);
    }

    let summary = ContributionSummary {
        name,
        new_repos,
        forked_repos,
        commits,
        issues,
        pull_requests,
    };
    proof {
        assert(summary@.pull_requests =~= spec_summary(follower@).pull_requests);
    }
    Ok(summary)
}

} // verus!
