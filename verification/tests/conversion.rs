use issue_bot::github::{
    authorization_value, canonical_commit_url, classify_reference, compare_commit_records,
    fetch_request_url, github_accept, issues_endpoint, plan_issue_posts, single_commit_records,
    status_is_success, user_agent, CommitReference, CreateIssuesError, FilerAction,
    GithubCreateIssue, ISSUE_FILING_DELAY_SECS,
};
use issue_bot::types::{BaseCommit, Commit, GitHubCommit, GitHubCompare};

fn commit(message: &str, url: &str) -> Commit {
    Commit {
        message: message.to_string(),
        url: url.to_string(),
        ..Commit::default()
    }
}

#[test]
fn classify_single_commit_url() {
    let r = classify_reference("https://github.com/discord/discord-api-docs/commit/abc123");
    assert_eq!(r, Ok(CommitReference::Single("abc123".to_string())));
}

#[test]
fn classify_compare_url() {
    let r = classify_reference("https://github.com/discord/discord-api-docs/compare/a1b2...c3d4");
    assert_eq!(r, Ok(CommitReference::Compare("a1b2...c3d4".to_string())));
}

#[test]
fn classify_host_only_url_is_single() {
    // The final segment after the last slash is "example.com": not a failure.
    let r = classify_reference("https://example.com");
    assert_eq!(r, Ok(CommitReference::Single("example.com".to_string())));
}

#[test]
fn classify_empty_input_fails() {
    let r = classify_reference("");
    assert_eq!(r, Err(CreateIssuesError::NoHashFound));
}

#[test]
fn classify_input_without_slash_fails() {
    let r = classify_reference("abc123");
    assert_eq!(r, Err(CreateIssuesError::NoHashFound));
}

#[test]
fn classify_looks_only_at_last_segment() {
    // A range written in an earlier segment does not make it a compare URL.
    let r = classify_reference("https://host/a...b/plain");
    assert_eq!(r, Ok(CommitReference::Single("plain".to_string())));
}

#[test]
fn classify_trailing_slash_gives_empty_segment() {
    let r = classify_reference("https://host/path/");
    assert_eq!(r, Ok(CommitReference::Single(String::new())));
}

#[test]
fn fetch_url_for_single_commit() {
    let r = fetch_request_url(&CommitReference::Single("abc123".to_string()));
    assert_eq!(
        r,
        "https://api.github.com/repos/discord/discord-api-docs/commits/abc123"
    );
}

#[test]
fn fetch_url_for_compare() {
    let r = fetch_request_url(&CommitReference::Compare("a...b".to_string()));
    assert_eq!(
        r,
        "https://api.github.com/repos/discord/discord-api-docs/compare/a...b"
    );
}

#[test]
fn canonical_url_from_api_url() {
    let r = canonical_commit_url(
        "https://api.github.com/repos/discord/discord-api-docs/commits/abc123".to_string(),
    );
    assert_eq!(
        r,
        "https://github.com/discord/discord-api-docs/commit/abc123"
    );
}

#[test]
fn canonical_url_without_segment_is_unchanged() {
    let r = canonical_commit_url("no-path-segments".to_string());
    assert_eq!(r, "no-path-segments");
}

#[test]
fn issue_draft_from_multiline_message() {
    let d = GithubCreateIssue::new(
        "fix bug\nmore detail".to_string(),
        "https://github.com/discord/discord-api-docs/commit/abc123".to_string(),
    );
    assert_eq!(d.title, "[api-docs] fix bug\nmore detail");
    assert!(d
        .body
        .contains("https://github.com/discord/discord-api-docs/commit/abc123"));
    assert_eq!(
        d.body,
        "A new commit was made into the api-docs repo.\nhttps://github.com/discord/discord-api-docs/commit/abc123\n\nThis is a bot created issue."
    );
    assert_eq!(d.labels, vec!["api-docs-commits".to_string()]);
}

#[test]
fn plan_for_three_commits_alternates() {
    let commits = vec![
        commit("first", "https://api.host/x/commits/c1"),
        commit("second", "https://api.host/x/commits/c2"),
        commit("third", "https://api.host/x/commits/c3"),
    ];
    let plan = plan_issue_posts(commits);
    assert_eq!(plan.len(), 5);
    let titles: Vec<&str> = plan
        .iter()
        .filter_map(|a| match a {
            FilerAction::Post(d) => Some(d.title.as_str()),
            FilerAction::Delay => None,
        })
        .collect();
    assert_eq!(
        titles,
        vec![
            "[api-docs] first",
            "[api-docs] second",
            "[api-docs] third"
        ]
    );
    assert!(matches!(plan[1], FilerAction::Delay));
    assert!(matches!(plan[3], FilerAction::Delay));
    let delays = plan
        .iter()
        .filter(|a| matches!(a, FilerAction::Delay))
        .count();
    assert_eq!(delays, 2);
    assert!(matches!(plan[4], FilerAction::Post(_)));
}

#[test]
fn plan_for_one_commit_has_no_delay() {
    let plan = plan_issue_posts(vec![commit("only", "https://api.host/x/commits/c1")]);
    assert_eq!(plan.len(), 1);
    match &plan[0] {
        FilerAction::Post(d) => {
            assert_eq!(d.title, "[api-docs] only");
            assert_eq!(
                d.body,
                "A new commit was made into the api-docs repo.\nhttps://github.com/discord/discord-api-docs/commit/c1\n\nThis is a bot created issue."
            );
        }
        FilerAction::Delay => panic!("expected a filing"),
    }
}

#[test]
fn plan_for_no_commits_is_empty() {
    let plan = plan_issue_posts(Vec::new());
    assert!(plan.is_empty());
}

#[test]
fn single_response_yields_one_record() {
    let data = GitHubCommit {
        commit: commit("msg", "https://api.host/x/commits/c1"),
        ..GitHubCommit::default()
    };
    let records = single_commit_records(data);
    assert_eq!(records.len(), 1);
    assert_eq!(records[0].message, "msg");
}

#[test]
fn compare_response_keeps_order() {
    let entry = |m: &str| BaseCommit {
        commit: commit(m, "https://api.host/x/commits/c"),
        ..BaseCommit::default()
    };
    let data = GitHubCompare {
        commits: vec![entry("a"), entry("b"), entry("c")],
        ..GitHubCompare::default()
    };
    let records = compare_commit_records(data);
    let messages: Vec<&str> = records.iter().map(|c| c.message.as_str()).collect();
    assert_eq!(messages, vec!["a", "b", "c"]);
}

#[test]
fn end_to_end_single_commit_plan() {
    let url = "https://github.com/discord/discord-api-docs/commit/abc123";
    let reference = classify_reference(url).unwrap();
    assert_eq!(
        fetch_request_url(&reference),
        "https://api.github.com/repos/discord/discord-api-docs/commits/abc123"
    );
    // The source host answers with one commit record.
    let data = GitHubCommit {
        commit: commit(
            "fix docs",
            "https://api.github.com/repos/discord/discord-api-docs/commits/abc123",
        ),
        ..GitHubCommit::default()
    };
    let records = single_commit_records(data);
    assert_eq!(records.len(), 1);
    let plan = plan_issue_posts(records);
    assert_eq!(plan.len(), 1);
    match &plan[0] {
        FilerAction::Post(d) => {
            assert_eq!(d.title, "[api-docs] fix docs");
            assert!(d
                .body
                .contains("https://github.com/discord/discord-api-docs/commit/abc123"));
        }
        FilerAction::Delay => panic!("expected a filing"),
    }
}

#[test]
fn end_to_end_compare_plan() {
    let url = "https://github.com/discord/discord-api-docs/compare/a1...b2";
    let reference = classify_reference(url).unwrap();
    assert_eq!(
        fetch_request_url(&reference),
        "https://api.github.com/repos/discord/discord-api-docs/compare/a1...b2"
    );
    // The source host answers with an ordered list of commits.
    let entry = |m: &str, u: &str| BaseCommit {
        commit: commit(m, u),
        ..BaseCommit::default()
    };
    let data = GitHubCompare {
        commits: vec![
            entry("one", "https://api.host/r/commits/c1"),
            entry("two", "https://api.host/r/commits/c2"),
            entry("three", "https://api.host/r/commits/c3"),
        ],
        ..GitHubCompare::default()
    };
    let plan = plan_issue_posts(compare_commit_records(data));
    let rendered: Vec<String> = plan
        .iter()
        .map(|a| match a {
            FilerAction::Post(d) => d.title.clone(),
            FilerAction::Delay => "<delay>".to_string(),
        })
        .collect();
    assert_eq!(
        rendered,
        vec![
            "[api-docs] one",
            "<delay>",
            "[api-docs] two",
            "<delay>",
            "[api-docs] three"
        ]
    );
}

#[test]
fn error_messages() {
    assert_eq!(
        CreateIssuesError::NoHashFound.message(),
        "No Hash could be found."
    );
    assert_eq!(
        CreateIssuesError::ReqwestError("connection reset".to_string()).message(),
        "Error from reqwest: connection reset"
    );
}

#[test]
fn canonical_url_with_trailing_slash() {
    let r = canonical_commit_url("https://api.host/path/".to_string());
    assert_eq!(r, "https://github.com/discord/discord-api-docs/commit/");
}

#[test]
fn status_classification() {
    assert!(status_is_success(200));
    assert!(status_is_success(201));
    assert!(status_is_success(299));
    assert!(!status_is_success(199));
    assert!(!status_is_success(300));
    assert!(!status_is_success(404));
    assert!(!status_is_success(500));
}

#[test]
fn request_constants() {
    assert_eq!(user_agent(), "Discordeno Issue Creation Bot");
    assert_eq!(github_accept(), "application/vnd.github.v3+json");
    assert_eq!(
        issues_endpoint(),
        "https://api.github.com/repos/discordeno/discordeno/issues"
    );
    assert_eq!(authorization_value("secret"), "token secret");
    assert_eq!(ISSUE_FILING_DELAY_SECS, 5);
}
