//! The issue converter: classifies a commit URL, builds the fetch request for
//! the source host, derives one issue draft per commit, and lays out the
//! throttled filing plan that the binary executes against the destination
//! host.

use vstd::prelude::*;
use vstd::string::*;

use crate::strutil::{
    contains_char, contains_triple_dot, find_last_slash, has_triple_dot, last_segment,
    last_slash_index, lemma_last_slash_unique,
};
use crate::types::{BaseCommit, Commit, GitHubCommit, GitHubCompare};

verus! {

/// Why a conversion could not run to completion.
#[derive(Debug, Clone, PartialEq)]
pub enum CreateIssuesError {
    /// The input URL held no path segment to take a hash or ref pair from.
    NoHashFound,
    /// A failure at the HTTP layer, carrying the underlying cause's
    /// description.
    ReqwestError(String),
}

impl CreateIssuesError {
    /// A human-readable description of the failure.
    pub fn message(&self) -> (r: String)
        ensures
            match self {
                CreateIssuesError::NoHashFound => r@ == "No Hash could be found."@,
                CreateIssuesError::ReqwestError(cause) => r@ == "Error from reqwest: "@
                    + cause@,
            },
    {
        match self {
            CreateIssuesError::NoHashFound => String::from_str("No Hash could be found."),
            CreateIssuesError::ReqwestError(cause) => {
                let mut r = String::from_str("Error from reqwest: ");
                r.append(cause.as_str());
                r
            },
        }
    }
}

/// A classified commit URL: either one commit named by its hash, or a
/// comparison between two refs written `base...head`.
#[derive(Debug, Clone, PartialEq)]
pub enum CommitReference {
    Single(String),
    Compare(String),
}

/// Classifies `url` by its last path segment: a segment holding `...` names a
/// compare range, any other segment a single commit. A URL without `/` has no
/// segment to classify.
pub fn classify_reference(url: &str) -> (r: Result<CommitReference, CreateIssuesError>)
    ensures
        match r {
            Ok(CommitReference::Single(seg)) => contains_char(url@, '/') && seg@
                == last_segment(url@) && !contains_triple_dot(seg@),
            Ok(CommitReference::Compare(seg)) => contains_char(url@, '/') && seg@
                == last_segment(url@) && contains_triple_dot(seg@),
            Err(e) => !contains_char(url@, '/') && e == CreateIssuesError::NoHashFound,
        },
{
    match find_last_slash(url) {
        None => Err(CreateIssuesError::NoHashFound),
        Some(i) => {
            proof {
                lemma_last_slash_unique(url@, i as int, last_slash_index(url@));
            }
            let n = url.unicode_len();
            let seg = url.substring_char(i + 1, n);
            if has_triple_dot(seg) {
                Ok(CommitReference::Compare(seg.to_owned()))
            } else {
                Ok(CommitReference::Single(seg.to_owned()))
            }
        },
    }
}

/// The user-agent header value sent with every outbound request.
pub fn user_agent() -> (r: &'static str)
    ensures
        r@ == "Discordeno Issue Creation Bot"@,
{
    "Discordeno Issue Creation Bot"
}

/// The accept header value that pins the destination host's API version on
/// issue creation.
pub fn github_accept() -> (r: &'static str)
    ensures
        r@ == "application/vnd.github.v3+json"@,
{
    "application/vnd.github.v3+json"
}

/// The authorization header value for a bearer credential `token`.
pub fn authorization_value(token: &str) -> (r: String)
    ensures
        r@ == "token "@ + token@,
{
    let mut r = String::from_str("token ");
    r.append(token);
    r
}

/// The issue-creation endpoint of the fixed destination repository.
pub fn issues_endpoint() -> (r: &'static str)
    ensures
        r@ == "https://api.github.com/repos/discordeno/discordeno/issues"@,
{
    "https://api.github.com/repos/discordeno/discordeno/issues"
}

/// Whether an HTTP status counts as success. A response with any other
/// status is a transport failure, never a body worth decoding.
pub fn status_is_success(status: u16) -> (r: bool)
    ensures
        r == (200 <= status < 300),
{
    200 <= status && status < 300
}

/// The source host's API URL to fetch `reference`: the single-commit endpoint
/// for a commit hash, the compare endpoint for a ref pair.
pub fn fetch_request_url(reference: &CommitReference) -> (r: String)
    ensures
        match reference {
            CommitReference::Single(seg) => r@
                == "https://api.github.com/repos/discord/discord-api-docs/commits/"@ + seg@,
            CommitReference::Compare(seg) => r@
                == "https://api.github.com/repos/discord/discord-api-docs/compare/"@ + seg@,
        },
{
    match reference {
        CommitReference::Single(seg) => {
            let mut r = String::from_str(
                "https://api.github.com/repos/discord/discord-api-docs/commits/",
            );
            r.append(seg.as_str());
            r
        },
        CommitReference::Compare(seg) => {
            let mut r = String::from_str(
                "https://api.github.com/repos/discord/discord-api-docs/compare/",
            );
            r.append(seg.as_str());
            r
        },
    }
}

/// The human-facing commit URL derived from an API URL: the web interface's
/// commit page for the API URL's last path segment, or the input unchanged
/// when it holds no path segment.
pub open spec fn spec_canonical_commit_url(u: Seq<char>) -> Seq<char> {
    if contains_char(u, '/') {
        "https://github.com/discord/discord-api-docs/commit/"@ + last_segment(u)
    } else {
        u
    }
}

/// Rewrites a commit's API URL into the web interface's commit URL; a URL
/// without a path segment is returned unchanged.
pub fn canonical_commit_url(api_url: String) -> (r: String)
    ensures
        r@ == spec_canonical_commit_url(api_url@),
{
    match find_last_slash(api_url.as_str()) {
        None => api_url,
        Some(i) => {
            proof {
                lemma_last_slash_unique(api_url@, i as int, last_slash_index(api_url@));
            }
            let n = api_url.as_str().unicode_len();
            let seg = api_url.as_str().substring_char(i + 1, n);
            let mut r = String::from_str("https://github.com/discord/discord-api-docs/commit/");
            r.append(seg);
            r
        },
    }
}

/// The issue-creation request payload for the destination host.
#[derive(Debug, Clone, PartialEq)]
pub struct GithubCreateIssue {
    pub title: String,
    pub body: String,
    pub labels: Vec<String>,
}

/// `d` is the draft derived from a commit message and a canonical commit URL:
/// a tagged title holding the whole message, a fixed body template embedding
/// the URL, and the one fixed label.
pub open spec fn issue_draft_matches(d: GithubCreateIssue, message: Seq<char>, url: Seq<char>) -> bool {
    &&& d.title@ == "[api-docs] "@ + message
    &&& d.body@ == "A new commit was made into the api-docs repo.\n"@ + url
        + "\n\nThis is a bot created issue."@
    &&& d.labels@.len() == 1
    &&& d.labels@[0]@ == "api-docs-commits"@
}

impl GithubCreateIssue {
    /// Builds the draft for `commit_message` and the canonical commit URL
    /// `url`.
    pub fn new(commit_message: String, url: String) -> (r: Self)
        ensures
            issue_draft_matches(r, commit_message@, url@),
    {
        let mut title = String::from_str("[api-docs] ");
        title.append(commit_message.as_str());
        let mut body = String::from_str("A new commit was made into the api-docs repo.\n");
        body.append(url.as_str());
        body.append("\n\nThis is a bot created issue.");
        let mut labels: Vec<String> = Vec::new();
        labels.push(String::from_str("api-docs-commits"));
        GithubCreateIssue { title, body, labels }
    }
}

/// The draft the filer owes for `c`: built from the commit's message and its
/// canonical commit URL.
pub open spec fn draft_for_commit(d: GithubCreateIssue, c: Commit) -> bool {
    issue_draft_matches(d, c.message@, spec_canonical_commit_url(c.url@))
}

/// The number of seconds the filer pauses between two consecutive filings.
pub const ISSUE_FILING_DELAY_SECS: u64 = 5;

/// One step of the filing plan: file a draft, or pause for the fixed delay.
#[derive(Debug, Clone, PartialEq)]
pub enum FilerAction {
    Post(GithubCreateIssue),
    Delay,
}

/// `plan` files one draft per commit of `commits`, in order, with exactly one
/// delay between consecutive filings and none after the last: drafts stand at
/// even positions, delays at odd ones.
pub open spec fn is_issue_plan(commits: Seq<Commit>, plan: Seq<FilerAction>) -> bool {
    &&& plan.len() == if commits.len() == 0 {
        0int
    } else {
        2 * commits.len() - 1
    }
    &&& forall|i: int|
        0 <= i < plan.len() ==> if i % 2 == 0 {
            #[trigger] plan[i] matches FilerAction::Post(d) && draft_for_commit(d, commits[i / 2])
        } else {
            plan[i] is Delay
        }
}

/// The number of filing steps in `plan`.
pub open spec fn count_posts(plan: Seq<FilerAction>) -> nat {
    plan.filter(|a: FilerAction| a is Post).len()
}

/// The number of delay steps in `plan`.
pub open spec fn count_delays(plan: Seq<FilerAction>) -> nat {
    plan.filter(|a: FilerAction| a is Delay).len()
}

/// In a plan whose filings stand at even positions and delays at odd ones,
/// the counts follow from the length alone.
proof fn lemma_alternating_counts(plan: Seq<FilerAction>)
    requires
        forall|i: int|
            0 <= i < plan.len() ==> if i % 2 == 0 {
                #[trigger] plan[i] is Post
            } else {
                plan[i] is Delay
            },
    ensures
        count_posts(plan) == (plan.len() + 1) / 2,
        count_delays(plan) == plan.len() / 2,
    decreases plan.len(),
{
    reveal_with_fuel(Seq::filter, 2);
    if plan.len() == 0 {
        assert(count_posts(plan) == 0);
        assert(count_delays(plan) == 0);
    } else {
        let prefix = plan.drop_last();
        assert(forall|i: int|
            0 <= i < prefix.len() ==> if i % 2 == 0 {
                #[trigger] prefix[i] is Post
            } else {
                prefix[i] is Delay
            });
        lemma_alternating_counts(prefix);
        assert(plan.last() == plan[plan.len() - 1]);
    }
}

/// Law of the throttled fan-out: a plan for one or more commits files exactly
/// one issue per commit, pauses exactly once between consecutive filings, and
/// ends with a filing rather than a pause.
pub proof fn lemma_plan_counts(commits: Seq<Commit>, plan: Seq<FilerAction>)
    requires
        is_issue_plan(commits, plan),
        commits.len() > 0,
    ensures
        count_posts(plan) == commits.len(),
        count_delays(plan) == commits.len() - 1,
        plan[plan.len() - 1] is Post,
{
    lemma_alternating_counts(plan);
}

/// Lays out the throttled fan-out for `commits`: one filing per commit, in
/// the order received, separated by fixed delays.
pub fn plan_issue_posts(commits: Vec<Commit>) -> (plan: Vec<FilerAction>)
    ensures
        is_issue_plan(commits@, plan@),
{
    let ghost all = commits@;
    let mut rest = commits;
    let total = rest.len();
    proof {
        assert(all.len() == total);
    }
    let mut plan: Vec<FilerAction> = Vec::new();
    let mut k: usize = 0;
    while rest.len() > 0
        invariant
            all.len() <= usize::MAX,
            all.len() == k + rest@.len(),
            rest@ =~= all.subrange(k as int, all.len() as int),
            plan@.len() == if k == 0 {
                0int
            } else {
                2 * k - 1
            },
            forall|i: int|
                0 <= i < plan@.len() ==> if i % 2 == 0 {
                    #[trigger] plan@[i] matches FilerAction::Post(d) && draft_for_commit(
                        d,
                        all[i / 2],
                    )
                } else {
                    plan@[i] is Delay
                },
        decreases rest@.len(),
    {
        let c = rest.remove(0);
        if k > 0 {
            plan.push(FilerAction::Delay);
        }
        let url = canonical_commit_url(c.url);
        plan.push(FilerAction::Post(GithubCreateIssue::new(c.message, url)));
        k = k + 1;
    }
    plan
}

/// The commit records of a single-commit response: exactly the one commit the
/// payload carries.
pub fn single_commit_records(data: GitHubCommit) -> (r: Vec<Commit>)
    ensures
        r@.len() == 1,
        r@[0] == data.commit,
{
    let mut r: Vec<Commit> = Vec::new();
    r.push(data.commit);
    r
}

/// The commit records of a compare response: the commit of each entry of the
/// payload's list, in the order returned by the source host.
pub fn compare_commit_records(data: GitHubCompare) -> (r: Vec<Commit>)
    ensures
        r@ == data.commits@.map_values(|b: BaseCommit| b.commit),
{
    let ghost all = data.commits@;
    let mut rest = data.commits;
    let mut r: Vec<Commit> = Vec::new();
    while rest.len() > 0
        invariant
            all.len() == r@.len() + rest@.len(),
            rest@ =~= all.subrange(r@.len() as int, all.len() as int),
            forall|i: int| 0 <= i < r@.len() ==> r@[i] == #[trigger] all[i].commit,
        decreases rest@.len(),
    {
        let b = rest.remove(0);
        r.push(b.commit);
    }
    proof {
        assert(r@ =~= all.map_values(|b: BaseCommit| b.commit));
    }
    r
}

} // verus!
