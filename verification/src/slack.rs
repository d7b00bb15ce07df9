//! Rendering of contribution summaries as a single text message.

use vstd::prelude::*;
use crate::github::Commit;
use crate::github::CommitView;
use crate::github::ContributionLink;
use crate::github::ContributionLinkView;
use crate::github::ContributionSummary;
use crate::github::ContributionSummaryView;
use crate::github::Repo;
use crate::github::RepoView;
use crate::github::RepoIssues;
use crate::github::RepoIssuesView;
use crate::github::RepoPullRequests;
use crate::github::RepoPullRequestsView;

verus! {

/// What the outbound message needs besides its text: destination and
/// sender identity, merged in by the delivery side of the program.
pub struct SlackConfig {
    pub hook_url: String,
    pub username: String,
    pub channel: String,
    pub icon: String,
}

// ------------------------------------------------------------------
// English list formatting
// ------------------------------------------------------------------

/// The items joined with the separator between each adjacent pair.
pub open spec fn spec_join(items: Seq<Seq<char>>, sep: Seq<char>) -> Seq<char>
    decreases items.len(),
{
    if items.len() == 0 {
        Seq::empty()
    } else if items.len() == 1 {
        items[0]
    } else {
        spec_join(items.drop_last(), sep) + sep + items.last()
    }
}

/// The English list: nothing for no items, the item alone for one,
/// commas between all but the last pair and `" and "` before the last
/// item otherwise — no Oxford comma.
pub open spec fn spec_comma_list(items: Seq<Seq<char>>) -> Seq<char> {
    if items.len() == 0 {
        Seq::empty()
    } else if items.len() == 1 {
        items[0]
    } else {
        spec_join(items.drop_last(), ", "@) + " and "@ + items.last()
    }
}

proof fn lemma_join_step(items: Seq<Seq<char>>, sep: Seq<char>, i: int)
    requires
        1 <= i < items.len(),
    ensures
        spec_join(items.take(i + 1), sep) == spec_join(items.take(i), sep) + sep + items[i],
{
    let t = items.take(i + 1);
    assert(t.drop_last() =~= items.take(i));
    assert(t.last() == items[i]);
}

/// Joins the words with the separator between each adjacent pair.
fn join_strings(words: &Vec<String>, sep: &str) -> (r: String)
    ensures
        r@ == spec_join(words.deep_view(), sep@),
{
    let ghost ws = words.deep_view();
    let mut s = String::new();
    if words.len() == 0 {
        return s;
    }
    s.append(words[0].as_str());
    proof {
        assert(s@ =~= ws[0]);
        assert(ws.take(1)[0] == ws[0]);
        assert(spec_join(ws.take(1), sep@) == ws[0]);
    }
    let mut i: usize = 1;
    while i < words.len()
        invariant
            1 <= i <= words.len(),
            ws == words.deep_view(),
            s@ == spec_join(ws.take(i as int), sep@),
        decreases words.len() - i,
    {
        s.append(sep);
        s.append(words[i].as_str());
        proof {
            lemma_join_step(ws, sep@, i as int);
        }
        i = i + 1;
    }
    proof {
        assert(ws.take(ws.len() as int) =~= ws);
    }
    s
}

/// Joins an ordered list of words into one English list, with correct
/// conjunction placement: `""`, `"A"`, `"A and B"`, `"A, B and C"`.
pub fn comma_separate_list(words: Vec<String>) -> (r: String)
    ensures
        r@ == spec_comma_list(words.deep_view()),
{
    let ghost ws = words.deep_view();
    if words.len() == 0 {
        return String::new();
    }
    if words.len() == 1 {
        return words[0].clone();
    }
    let mut s = String::new();
    s.append(words[0].as_str());
    proof {
        assert(s@ =~= ws[0]);
        assert(ws.take(1)[0] == ws[0]);
        assert(spec_join(ws.take(1), ", "@) == ws[0]);
    }
    let mut i: usize = 1;
    while i < words.len() - 1
        invariant
            words.len() >= 2,
            1 <= i <= words.len() - 1,
            ws == words.deep_view(),
            s@ == spec_join(ws.take(i as int), ", "@),
        decreases words.len() - i,
    {
        s.append(", ");
        s.append(words[i].as_str());
        proof {
            lemma_join_step(ws, ", "@, i as int);
        }
        i = i + 1;
    }
    s.append(" and ");
    s.append(words[words.len() - 1].as_str());
    proof {
        assert(ws.take((ws.len() - 1) as int) =~= ws.drop_last());
        assert(ws[ws.len() - 1] == ws.last());
    }
    s
}

// ------------------------------------------------------------------
// Shape of the formatted list
// ------------------------------------------------------------------

/// How often the character occurs in the sequence.
pub open spec fn count_char(s: Seq<char>, c: char) -> nat
    decreases s.len(),
{
    if s.len() == 0 {
        0
    } else {
        count_char(s.drop_last(), c) + (if s.last() == c {
            1nat
        } else {
            0nat
        })
    }
}

/// The pattern occurs in `s` starting at position `k`.
pub open spec fn is_match_at(s: Seq<char>, pat: Seq<char>, k: int) -> bool {
    0 <= k && k + pat.len() <= s.len() && s.subrange(k, k + pat.len()) == pat
}

/// An item free of the list's own punctuation: no comma, no space, and
/// not the bare word `"and"`.
pub open spec fn plain_item(s: Seq<char>) -> bool {
    (forall|j: int| 0 <= j < s.len() ==> s[j] != ',' && s[j] != ' ') && s != "and"@
}

spec fn spaces_follow_commas(s: Seq<char>) -> bool {
    forall|j: int| 0 <= j < s.len() && #[trigger] s[j] == ' ' ==> j >= 1 && s[j - 1] == ','
}

spec fn ends_with_and(s: Seq<char>) -> bool {
    s.len() >= 4 && s.subrange(s.len() - 4, s.len() as int) == " and"@
}

proof fn lemma_count_char_add(a: Seq<char>, b: Seq<char>, c: char)
    ensures
        count_char(a + b, c) == count_char(a, c) + count_char(b, c),
    decreases b.len(),
{
    if b.len() == 0 {
        assert(a + b =~= a);
    } else {
        assert((a + b).drop_last() =~= a + b.drop_last());
        assert((a + b).last() == b.last());
        lemma_count_char_add(a, b.drop_last(), c);
    }
}

proof fn lemma_count_char_none(s: Seq<char>, c: char)
    requires
        forall|j: int| 0 <= j < s.len() ==> s[j] != c,
    ensures
        count_char(s, c) == 0,
    decreases s.len(),
{
    if s.len() > 0 {
        lemma_count_char_none(s.drop_last(), c);
    }
}

proof fn lemma_separator_chars()
    ensures
        ", "@ =~= seq![',', ' '],
        " and "@ =~= seq![' ', 'a', 'n', 'd', ' '],
        " and"@ =~= seq![' ', 'a', 'n', 'd'],
        "and"@ =~= seq!['a', 'n', 'd'],
        count_char(", "@, ',') == 1,
        count_char(" and "@, ',') == 0,
{
    reveal_strlit(", ");
    reveal_strlit(" and ");
    reveal_strlit(" and");
    reveal_strlit("and");
    assert(", "@ =~= seq![',', ' ']);
    assert(" and "@ =~= seq![' ', 'a', 'n', 'd', ' ']);
    assert(seq![',', ' '].drop_last() =~= seq![',']);
    assert(seq![','].drop_last() =~= Seq::<char>::empty());
    assert(count_char(Seq::<char>::empty(), ',') == 0);
    assert(count_char(seq![','], ',') == 1);
    assert(count_char(", "@, ',') == 1);
    lemma_count_char_none(" and "@, ',');
}

/// Joining plain items with `", "` yields exactly one comma per joined
/// pair, a space only ever directly after a comma, and no `" and"` tail.
proof fn lemma_join_plain_structure(items: Seq<Seq<char>>)
    requires
        items.len() >= 1,
        forall|i: int| 0 <= i < items.len() ==> plain_item(#[trigger] items[i]),
    ensures
        count_char(spec_join(items, ", "@), ',') == items.len() - 1,
        spaces_follow_commas(spec_join(items, ", "@)),
        !ends_with_and(spec_join(items, ", "@)),
    decreases items.len(),
{
    lemma_separator_chars();
    let p = spec_join(items, ", "@);
    if items.len() == 1 {
        assert(p == items[0]);
        assert(plain_item(items[0]));
        lemma_count_char_none(p, ',');
        if ends_with_and(p) {
            assert(p.subrange(p.len() - 4, p.len() as int)[0] == p[p.len() - 4]);
            assert(p[p.len() - 4] == ' ');
            assert(false);
        }
    } else {
        let prefix = items.drop_last();
        let last = items.last();
        assert(forall|i: int|
            0 <= i < prefix.len() ==> plain_item(#[trigger] prefix[i]) && prefix[i] == items[i]);
        lemma_join_plain_structure(prefix);
        let q = spec_join(prefix, ", "@);
        assert(p == q + ", "@ + last);
        let n = p.len() as int;
        let ql = q.len() as int;
        assert(plain_item(last));

        lemma_count_char_add(q + ", "@, last, ',');
        lemma_count_char_add(q, ", "@, ',');
        lemma_count_char_none(last, ',');
        assert(count_char(p, ',') == items.len() - 1);

        assert(n == ql + 2 + last.len());
        assert forall|j: int| 0 <= j < p.len() && #[trigger] p[j] == ' ' implies j >= 1 && p[j - 1]
            == ',' by {
            if j < ql {
                assert(p[j] == q[j]);
                assert(q[j] == ' ');
                assert(j >= 1 && q[j - 1] == ',');
                assert(p[j - 1] == q[j - 1]);
            } else if j == ql {
                assert(p[j] == ',');
            } else if j == ql + 1 {
                assert(p[j - 1] == ',');
            } else {
                assert(p[j] == last[j - ql - 2]);
                assert(p[j] != ' ');
            }
        }

        if ends_with_and(p) {
            assert forall|t: int| 0 <= t < 4 implies p[n - 4 + t] == " and"@[t] by {
                assert(p.subrange(n - 4, n)[t] == p[n - 4 + t]);
            }
            if last.len() >= 4 {
                assert(p[n - 4] == last[last.len() - 4]);
                assert(p[n - 4] == ' ');
                assert(false);
            } else if last.len() == 3 {
                assert(last[0] == p[n - 3] && last[1] == p[n - 2] && last[2] == p[n - 1]);
                assert(last =~= "and"@);
                assert(false);
            } else if last.len() == 2 {
                assert(p[n - 3] == ' ');
                assert(p[n - 3] == 'a');
                assert(false);
            } else if last.len() == 1 {
                assert(p[n - 2] == ',');
                assert(p[n - 2] == 'n');
                assert(false);
            } else {
                assert(p[n - 1] == ' ');
                assert(p[n - 1] == 'd');
                assert(false);
            }
        }
    }
}

/// List shape law: formatting three or more plain items yields exactly
/// `items.len() - 2` commas, and the conjunction `" and "` occurs exactly
/// once — directly before the final item. A plain item contains no comma
/// and no space and is not the bare word `"and"`; an item such as `"and"`
/// would make the conjunction appear twice.
pub proof fn lemma_comma_list_shape(items: Seq<Seq<char>>)
    requires
        items.len() >= 3,
        forall|i: int| 0 <= i < items.len() ==> plain_item(#[trigger] items[i]),
    ensures
        count_char(spec_comma_list(items), ',') == items.len() - 2,
        is_match_at(
            spec_comma_list(items),
            " and "@,
            spec_join(items.drop_last(), ", "@).len() as int,
        ),
        forall|k: int| #[trigger]
            is_match_at(spec_comma_list(items), " and "@, k) ==> k == spec_join(
                items.drop_last(),
                ", "@,
            ).len(),
{
    lemma_separator_chars();
    let out = spec_comma_list(items);
    let prefix = items.drop_last();
    let last = items.last();
    assert(forall|i: int|
        0 <= i < prefix.len() ==> plain_item(#[trigger] prefix[i]) && prefix[i] == items[i]);
    lemma_join_plain_structure(prefix);
    let q = spec_join(prefix, ", "@);
    let ql = q.len() as int;
    let pat = " and "@;
    assert(out == q + " and "@ + last);
    assert(out.len() == ql + 5 + last.len());
    assert(plain_item(last));

    lemma_count_char_add(q + " and "@, last, ',');
    lemma_count_char_add(q, " and "@, ',');
    lemma_count_char_none(last, ',');
    assert(count_char(out, ',') == items.len() - 2);

    assert(is_match_at(out, pat, ql)) by {
        assert(out.subrange(ql, ql + 5) =~= pat);
    }

    assert forall|k: int| #[trigger] is_match_at(out, pat, k) implies k == ql by {
        assert(out.subrange(k, k + 5) == pat);
        assert forall|t: int| 0 <= t < 5 implies out[k + t] == pat[t] by {
            assert(out.subrange(k, k + 5)[t] == out[k + t]);
        }
        if k + 5 <= ql {
            assert(out[k + 4] == q[k + 4]);
            assert(q[k + 4] == ' ');
            assert(q[k + 3] == ',');
            assert(out[k + 3] == q[k + 3]);
            assert(false);
        } else if k < ql {
            let t = ql - k;
            if t == 1 {
                assert(out[k + 1] == pat[0]);
                assert(out[k + 1] == 'a');
                assert(false);
            } else if t == 2 {
                assert(out[k + 2] == pat[0]);
                assert(out[k + 2] == 'n');
                assert(false);
            } else if t == 3 {
                assert(out[k + 3] == pat[0]);
                assert(out[k + 3] == 'd');
                assert(false);
            } else {
                assert(t == 4);
                assert(q.subrange(ql - 4, ql) =~= " and"@) by {
                    assert forall|u: int| 0 <= u < 4 implies q.subrange(ql - 4, ql)[u] == " and"@[u] by {
                        assert(q.subrange(ql - 4, ql)[u] == q[ql - 4 + u]);
                        assert(out[ql - 4 + u] == q[ql - 4 + u]);
                        assert(out[k + u] == pat[u]);
                    }
                }
                assert(ends_with_and(q));
                assert(false);
            }
        } else if k == ql {
        } else if k <= ql + 4 {
            let u = k - ql;
            if u == 1 {
                assert(out[k] == pat[1]);
                assert(pat[0] == ' ' && pat[1] == 'a');
                assert(false);
            } else if u == 2 {
                assert(out[k] == pat[2]);
                assert(false);
            } else if u == 3 {
                assert(out[k] == pat[3]);
                assert(false);
            } else {
                assert(u == 4);
                assert(last.len() >= 4);
                assert(out[k + 4] == last[3]);
                assert(last[3] == ' ');
                assert(false);
            }
        } else {
            assert(out[k] == last[k - ql - 5]);
            assert(last[k - ql - 5] == ' ');
            assert(false);
        }
    }
}

// ------------------------------------------------------------------
// Decimal rendering of issue and pull-request numbers
// ------------------------------------------------------------------

pub open spec fn spec_digit(d: int) -> char {
    if d == 0 {
        '0'
    } else if d == 1 {
        '1'
    } else if d == 2 {
        '2'
    } else if d == 3 {
        '3'
    } else if d == 4 {
        '4'
    } else if d == 5 {
        '5'
    } else if d == 6 {
        '6'
    } else if d == 7 {
        '7'
    } else if d == 8 {
        '8'
    } else {
        '9'
    }
}

/// The decimal digits of a non-negative number, most significant first.
pub open spec fn spec_dec_nat(n: nat) -> Seq<char>
    decreases n,
{
    if n < 10 {
        seq![spec_digit(n as int)]
    } else {
        spec_dec_nat(n / 10) + seq![spec_digit((n % 10) as int)]
    }
}

/// The decimal rendering of a number, with a leading minus sign when it
/// is negative.
pub open spec fn spec_dec_int(n: int) -> Seq<char> {
    if n < 0 {
        seq!['-'] + spec_dec_nat((-n) as nat)
    } else {
        spec_dec_nat(n as nat)
    }
}

fn digit_str(d: u64) -> (r: &'static str)
    requires
        d < 10,
    ensures
        r@ == seq![spec_digit(d as int)],
{
    let r: &'static str = if d == 0 {
        "0"
    } else if d == 1 {
        "1"
    } else if d == 2 {
        "2"
    } else if d == 3 {
        "3"
    } else if d == 4 {
        "4"
    } else if d == 5 {
        "5"
    } else if d == 6 {
        "6"
    } else if d == 7 {
        "7"
    } else if d == 8 {
        "8"
    } else {
        "9"
    };
    proof {
        reveal_strlit("0");
        reveal_strlit("1");
        reveal_strlit("2");
        reveal_strlit("3");
        reveal_strlit("4");
        reveal_strlit("5");
        reveal_strlit("6");
        reveal_strlit("7");
        reveal_strlit("8");
        reveal_strlit("9");
        assert(r@ =~= seq![spec_digit(d as int)]);
    }
    r
}

fn push_dec_u64(s: &mut String, n: u64)
    ensures
        final(s)@ == old(s)@ + spec_dec_nat(n as nat),
    decreases n,
{
    if n >= 10 {
        push_dec_u64(s, n / 10);
    }
    let d = digit_str(n % 10);
    s.append(d);
    proof {
        assert(final(s)@ =~= old(s)@ + spec_dec_nat(n as nat));
    }
}

/// Renders a number in decimal, minus sign first when negative.
pub fn dec_int(n: i64) -> (r: String)
    ensures
        r@ == spec_dec_int(n as int),
{
    let mut s = String::new();
    if n >= 0 {
        push_dec_u64(&mut s, n as u64);
        proof {
            assert(s@ =~= spec_dec_int(n as int));
        }
    } else {
        s.append("-");
        let m: u64 = ((-(n + 1)) as u64) + 1;
        proof {
            assert(m as int == -(n as int));
        }
        push_dec_u64(&mut s, m);
        proof {
            reveal_strlit("-");
            assert("-"@ =~= seq!['-']);
            assert(s@ =~= spec_dec_int(n as int));
        }
    }
    s
}

/// `"<{url}|{text}>"`, the hyperlink form the message embeds.
pub open spec fn spec_link(url: Seq<char>, text: Seq<char>) -> Seq<char> {
    "<"@ + url + "|"@ + text + ">"@
}

/// Renders a hyperlink with the given target and text.
pub fn link(url: &str, text: &str) -> (r: String)
    ensures
        r@ == spec_link(url@, text@),
{
    let mut s = String::from_str("<");
    s.append(url);
    s.append("|");
    s.append(text);
    s.append(">");
    s
}

/// Renders a repository as a hyperlink carrying its name.
pub fn link_repo(repo: &Repo) -> (r: String)
    ensures
        r@ == spec_link(repo.url@, repo.name@),
{
    link(repo.url.as_str(), repo.name.as_str())
}

// ------------------------------------------------------------------
// Per-category clauses
// ------------------------------------------------------------------

/// An issue or pull-request reference rendered as a hyperlinked number.
pub open spec fn spec_link_ref(l: ContributionLinkView) -> Seq<char> {
    spec_link(l.url, "#"@ + spec_dec_int(l.number))
}

pub open spec fn spec_repo_links(repos: Seq<RepoView>) -> Seq<Seq<char>> {
    repos.map_values(|r: RepoView| spec_link(r.url, r.name))
}

/// `"created the repo(s) "` and the hyperlinked repository names.
pub open spec fn spec_repo_clause(new_repos: Seq<RepoView>) -> Seq<char> {
    "created the repo"@ + (if new_repos.len() == 1 {
        Seq::<char>::empty()
    } else {
        "s"@
    }) + " "@ + spec_comma_list(spec_repo_links(new_repos))
}

/// `"pushed commits to "` and the hyperlinked repository names; counts
/// are tracked in the data model but not rendered.
pub open spec fn spec_commit_clause(commits: Seq<CommitView>) -> Seq<char> {
    "pushed commits to "@ + spec_comma_list(
        commits.map_values(|c: CommitView| spec_link(c.repo.url, c.repo.name)),
    )
}

/// One per-repository entry: the hyperlinked repository and, in
/// parentheses, the comma list of its hyperlinked numbers.
pub open spec fn spec_links_entry(repo: RepoView, links: Seq<ContributionLinkView>) -> Seq<char> {
    spec_link(repo.url, repo.name) + " ("@ + spec_comma_list(
        links.map_values(|l: ContributionLinkView| spec_link_ref(l)),
    ) + ")"@
}

/// `"contributed to PRs in "` and the per-repository entries.
pub open spec fn spec_pull_request_clause(prs: Seq<RepoPullRequestsView>) -> Seq<char> {
    "contributed to PRs in "@ + spec_comma_list(
        prs.map_values(|p: RepoPullRequestsView| spec_links_entry(p.repo, p.pull_requests)),
    )
}

/// `"helped out with issues in "` and the per-repository entries.
pub open spec fn spec_issue_clause(issues: Seq<RepoIssuesView>) -> Seq<char> {
    "helped out with issues in "@ + spec_comma_list(
        issues.map_values(|e: RepoIssuesView| spec_links_entry(e.repo, e.issues)),
    )
}

fn link_ref(l: &ContributionLink) -> (r: String)
    ensures
        r@ == spec_link_ref(l@),
{
    let mut text = String::from_str("#");
    let digits = dec_int(l.number);
    text.append(digits.as_str());
    proof {
        assert(text@ =~= "#"@ + spec_dec_int(l.number as int));
    }
    link(l.url.as_str(), text.as_str())
}

fn links_entry(repo: &Repo, links: &Vec<ContributionLink>) -> (r: String)
    ensures
        r@ == spec_links_entry(repo@, links.deep_view()),
{
    let ghost lv = links.deep_view();
    let mut words: Vec<String> = Vec::new();
    let mut i: usize = 0;
    while i < links.len()
        invariant
            i <= links.len(),
            lv == links.deep_view(),
            words.deep_view() == lv.take(i as int).map_values(
                |l: ContributionLinkView| spec_link_ref(l),
            ),
        decreases links.len() - i,
    {
        let w = link_ref(&links[i]);
        let ghost wv = w@;
        let ghost pre = words.deep_view();
        words.push(w);
        proof {
            assert(words.deep_view() =~= pre.push(wv));
            assert(pre.push(wv) =~= lv.take(i + 1).map_values(
                |l: ContributionLinkView| spec_link_ref(l),
            ));
        }
        i = i + 1;
    }
    proof {
        assert(lv.take(links.deep_view().len() as int) =~= lv);
    }
    let mut s = link_repo(repo);
    s.append(" (");
    let list = comma_separate_list(words);
    s.append(list.as_str());
    s.append(")");
    proof {
        assert(s@ =~= spec_links_entry(repo@, lv));
    }
    s
}

/// Renders the new-repository clause.
pub fn build_repo_contributions(new_repos: &Vec<Repo>) -> (r: String)
    ensures
        r@ == spec_repo_clause(new_repos.deep_view()),
{
    let ghost rv = new_repos.deep_view();
    let mut words: Vec<String> = Vec::new();
    let mut i: usize = 0;
    while i < new_repos.len()
        invariant
            i <= new_repos.len(),
            rv == new_repos.deep_view(),
            words.deep_view() == spec_repo_links(rv.take(i as int)),
        decreases new_repos.len() - i,
    {
        let w = link_repo(&new_repos[i]);
        let ghost wv = w@;
        let ghost pre = words.deep_view();
        words.push(w);
        proof {
            assert(words.deep_view() =~= pre.push(wv));
            assert(pre.push(wv) =~= spec_repo_links(rv.take(i + 1)));
        }
        i = i + 1;
    }
    proof {
        assert(rv.take(new_repos.deep_view().len() as int) =~= rv);
    }
    let mut s = String::from_str("created the repo");
    if new_repos.len() != 1 {
        s.append("s");
    }
    s.append(" ");
    let list = comma_separate_list(words);
    s.append(list.as_str());
    proof {
        assert(s@ =~= spec_repo_clause(rv));
    }
    s
}

/// Renders the commit clause: repository names only, no counts.
pub fn build_commit_contributions(commits: &Vec<Commit>) -> (r: String)
    ensures
        r@ == spec_commit_clause(commits.deep_view()),
{
    let ghost cv = commits.deep_view();
    let mut words: Vec<String> = Vec::new();
    let mut i: usize = 0;
    while i < commits.len()
        invariant
            i <= commits.len(),
            cv == commits.deep_view(),
            words.deep_view() == cv.take(i as int).map_values(
                |c: CommitView| spec_link(c.repo.url, c.repo.name),
            ),
        decreases commits.len() - i,
    {
        let w = link_repo(&commits[i].repo);
        let ghost wv = w@;
        let ghost pre = words.deep_view();
        words.push(w);
        proof {
            assert(words.deep_view() =~= pre.push(wv));
            assert(pre.push(wv) =~= cv.take(i + 1).map_values(
                |c: CommitView| spec_link(c.repo.url, c.repo.name),
            ));
        }
        i = i + 1;
    }
    proof {
        assert(cv.take(commits.deep_view().len() as int) =~= cv);
    }
    let mut s = String::from_str("pushed commits to ");
    let list = comma_separate_list(words);
    s.append(list.as_str());
    s
}

/// Renders the pull-request clause, authored and reviewed entries alike.
pub fn build_pull_request_contributions(pull_requests: &Vec<RepoPullRequests>) -> (r: String)
    ensures
        r@ == spec_pull_request_clause(pull_requests.deep_view()),
{
    let ghost pv = pull_requests.deep_view();
    let mut words: Vec<String> = Vec::new();
    let mut i: usize = 0;
    while i < pull_requests.len()
        invariant
            i <= pull_requests.len(),
            pv == pull_requests.deep_view(),
            words.deep_view() == pv.take(i as int).map_values(
                |p: RepoPullRequestsView| spec_links_entry(p.repo, p.pull_requests),
            ),
        decreases pull_requests.len() - i,
    {
        let entry = &pull_requests[i];
        let w = links_entry(&entry.repo, &entry.pull_requests);
        let ghost wv = w@;
        let ghost pre = words.deep_view();
        words.push(w);
        proof {
            assert(words.deep_view() =~= pre.push(wv));
            assert(pre.push(wv) =~= pv.take(i + 1).map_values(
                |p: RepoPullRequestsView| spec_links_entry(p.repo, p.pull_requests),
            ));
        }
        i = i + 1;
    }
    proof {
        assert(pv.take(pull_requests.deep_view().len() as int) =~= pv);
    }
    let mut s = String::from_str("contributed to PRs in ");
    let list = comma_separate_list(words);
    s.append(list.as_str());
    s
}

/// Renders the issue clause.
pub fn build_issue_contributions(issues: &Vec<RepoIssues>) -> (r: String)
    ensures
        r@ == spec_issue_clause(issues.deep_view()),
{
    let ghost iv = issues.deep_view();
    let mut words: Vec<String> = Vec::new();
    let mut i: usize = 0;
    while i < issues.len()
        invariant
            i <= issues.len(),
            iv == issues.deep_view(),
            words.deep_view() == iv.take(i as int).map_values(
                |e: RepoIssuesView| spec_links_entry(e.repo, e.issues),
            ),
        decreases issues.len() - i,
    {
        let entry = &issues[i];
        let w = links_entry(&entry.repo, &entry.issues);
        let ghost wv = w@;
        let ghost pre = words.deep_view();
        words.push(w);
        proof {
            assert(words.deep_view() =~= pre.push(wv));
            assert(pre.push(wv) =~= iv.take(i + 1).map_values(
                |e: RepoIssuesView| spec_links_entry(e.repo, e.issues),
            ));
        }
        i = i + 1;
    }
    proof {
        assert(iv.take(issues.deep_view().len() as int) =~= iv);
    }
    let mut s = String::from_str("helped out with issues in ");
    let list = comma_separate_list(words);
    s.append(list.as_str());
    s
}

// ------------------------------------------------------------------
// One line per person, one message per digest
// ------------------------------------------------------------------

/// The ordered activity clauses of one person: new repositories, commits,
/// pull requests, issues — each present only when its category is
/// non-empty. Forked repositories are tracked but never rendered.
pub open spec fn spec_clauses(c: ContributionSummaryView) -> Seq<Seq<char>> {
    (if c.new_repos.len() > 0 {
        seq![spec_repo_clause(c.new_repos)]
    } else {
        Seq::<Seq<char>>::empty()
    }) + (if c.commits.len() > 0 {
        seq![spec_commit_clause(c.commits)]
    } else {
        Seq::<Seq<char>>::empty()
    }) + (if c.pull_requests.len() > 0 {
        seq![spec_pull_request_clause(c.pull_requests)]
    } else {
        Seq::<Seq<char>>::empty()
    }) + (if c.issues.len() > 0 {
        seq![spec_issue_clause(c.issues)]
    } else {
        Seq::<Seq<char>>::empty()
    })
}

/// One person's line, or nothing at all when every category is empty.
pub open spec fn spec_contribution_line(c: ContributionSummaryView) -> Seq<char> {
    if spec_clauses(c).len() == 0 {
        Seq::empty()
    } else {
        "- "@ + c.name + " "@ + spec_join(spec_clauses(c), "; "@) + ".\n"@
    }
}

pub open spec fn spec_digest_lines(cs: Seq<ContributionSummaryView>) -> Seq<char>
    decreases cs.len(),
{
    if cs.len() == 0 {
        Seq::empty()
    } else {
        spec_digest_lines(cs.drop_last()) + spec_contribution_line(cs.last())
    }
}

/// The whole digest: the fixed header line, then the per-person lines in
/// input order.
pub open spec fn spec_message(cs: Seq<ContributionSummaryView>) -> Seq<char> {
    "Recent Open Source Contributions!\n"@ + spec_digest_lines(cs)
}

/// Empty-activity omission: a summary with every category sequence empty
/// contributes nothing to the rendered digest — not even a blank line.
pub proof fn lemma_empty_activity_omitted(c: ContributionSummaryView)
    requires
        c.new_repos.len() == 0,
        c.commits.len() == 0,
        c.pull_requests.len() == 0,
        c.issues.len() == 0,
    ensures
        spec_contribution_line(c) == Seq::<char>::empty(),
{
    assert(spec_clauses(c) =~= Seq::<Seq<char>>::empty());
}

/// Renders one person's line, or the empty string for a person with no
/// reportable activity.
pub fn build_contributions(contribution: &ContributionSummary) -> (r: String)
    ensures
        r@ == spec_contribution_line(contribution@),
{
    let ghost c = contribution@;
    let mut results: Vec<String> = Vec::new();
    if contribution.new_repos.len() > 0 {
        let w = build_repo_contributions(&contribution.new_repos);
        results.push(w);
    }
    if contribution.commits.len() > 0 {
        let w = build_commit_contributions(&contribution.commits);
        results.push(w);
    }
    if contribution.pull_requests.len() > 0 {
        let w = build_pull_request_contributions(&contribution.pull_requests);
        results.push(w);
    }
    if contribution.issues.len() > 0 {
        let w = build_issue_contributions(&contribution.issues);
        results.push(w);
    }
    proof {
        assert(results.deep_view() =~= spec_clauses(c));
    }
    if results.len() == 0 {
        return String::new();
    }
    let mut s = String::from_str("- ");
    s.append(contribution.name.as_str());
    s.append(" ");
    let joined = join_strings(&results, "; ");
    s.append(joined.as_str());
    s.append(".\n");
    proof {
        assert(s@ =~= spec_contribution_line(c));
    }
    s
}

/// Renders the digest for the given summaries, in their order.
pub fn build_message(contributions: &Vec<ContributionSummary>) -> (r: String)
    ensures
        r@ == spec_message(contributions.deep_view()),
{
    let ghost cs = contributions.deep_view();
    let mut s = String::from_str("Recent Open Source Contributions!\n");
    proof {
        assert(cs.take(0) =~= Seq::<ContributionSummaryView>::empty());
        assert(s@ =~= "Recent Open Source Contributions!\n"@ + spec_digest_lines(cs.take(0)));
    }
    let mut i: usize = 0;
    while i < contributions.len()
        invariant
            i <= contributions.len(),
            cs == contributions.deep_view(),
            s@ == "Recent Open Source Contributions!\n"@ + spec_digest_lines(cs.take(i as int)),
        decreases contributions.len() - i,
    {
        let line = build_contributions(&contributions[i]);
        s.append(line.as_str());
        proof {
            assert(cs.take(i + 1).drop_last() =~= cs.take(i as int));
            assert(cs.take(i + 1).last() == cs[i as int]);
            assert(s@ =~= "Recent Open Source Contributions!\n"@ + spec_digest_lines(
                cs.take(i + 1),
            ));
        }
        i = i + 1;
    }
    proof {
        assert(cs.take(contributions.deep_view().len() as int) =~= cs);
    }
    s
}

} // verus!
