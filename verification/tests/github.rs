use chrono::TimeZone;

use seal::github::{
    draft_mutation, draft_node, ensure_authenticated, filter_prs_by_date_range,
    gh_pr_to_github_pull_request, graphql_outcome, latest_release, parse_github_repo,
    plan_pull_request_sync, prs_page, prs_page_between, pull_request_reference,
    remote_url_from_output, select_token, sort_releases, truncate_prs, ExistingPullRequest,
    GitHubError, GitHubPullRequest, PullRequestSync, RawPullRequest, RawRelease, Timestamp,
};

fn at(y: i32, mo: u32, d: u32) -> Timestamp {
    let dt = chrono::Utc.with_ymd_and_hms(y, mo, d, 0, 0, 0).unwrap();
    Timestamp::new(dt.timestamp(), 0).unwrap()
}

fn pr(number: u64, merged_at: Timestamp) -> GitHubPullRequest {
    GitHubPullRequest {
        title: format!("PR {number}"),
        number,
        url: format!("https://github.com/owner/repo/pull/{number}"),
        labels: vec![],
        author: None,
        merged_at,
    }
}

fn raw(number: u64, merged: Option<Timestamp>, updated: Option<Timestamp>) -> RawPullRequest {
    RawPullRequest {
        title: Some(format!("PR {number}")),
        number,
        html_url: Some(format!("https://github.com/owner/repo/pull/{number}")),
        labels: None,
        author: Some("alice".to_string()),
        merged_at: merged,
        updated_at: updated,
    }
}

#[test]
fn test_parse_github_repo_https() {
    let (owner, repo) = parse_github_repo("https://github.com/owner/repo").unwrap();
    assert_eq!(owner, "owner");
    assert_eq!(repo, "repo");
}

#[test]
fn test_parse_github_repo_https_with_git() {
    let (owner, repo) = parse_github_repo("https://github.com/owner/repo.git").unwrap();
    assert_eq!(owner, "owner");
    assert_eq!(repo, "repo");
}

#[test]
fn test_parse_github_repo_ssh() {
    let (owner, repo) = parse_github_repo("git@github.com:owner/repo").unwrap();
    assert_eq!(owner, "owner");
    assert_eq!(repo, "repo");
}

#[test]
fn test_parse_github_repo_ssh_with_git() {
    let (owner, repo) = parse_github_repo("git@github.com:owner/repo.git").unwrap();
    assert_eq!(owner, "owner");
    assert_eq!(repo, "repo");
}

#[test]
fn test_parse_github_repo_invalid() {
    assert!(parse_github_repo("https://example.com/owner/repo").is_err());
    assert!(parse_github_repo("https://github.com/owner/repo/other.git").is_err());
    assert!(parse_github_repo("not-a-url").is_err());
}

#[test]
fn invalid_repository_url_message_and_round_trip() {
    let e = parse_github_repo("nope").unwrap_err();
    assert_eq!(e.to_string(), "Invalid GitHub repository URL: nope");
    for (o, r) in [("octo", "cat"), ("a-b", "c.d"), ("x", "git")] {
        let url = format!("https://github.com/{o}/{r}");
        assert_eq!(parse_github_repo(&url).unwrap(), (o.to_string(), r.to_string()));
        let url = format!("git@github.com:{o}/{r}");
        assert_eq!(parse_github_repo(&url).unwrap(), (o.to_string(), r.to_string()));
    }
    assert_eq!(
        parse_github_repo("https://github.com/owner/repo/").unwrap(),
        ("owner".to_string(), "repo".to_string())
    );
    assert_eq!(remote_url_from_output("  https://github.com/a/b\n"), Some("https://github.com/a/b".to_string()));
    assert_eq!(remote_url_from_output(" \n"), None);
}

#[test]
fn filter_keeps_prs_merged_after_since_and_until_inclusive() {
    let prs = vec![pr(1, at(2025, 11, 10)), pr(2, at(2025, 11, 15)), pr(3, at(2025, 12, 1)), pr(4, at(2025, 12, 8))];
    let since = at(2025, 11, 15);
    let until = at(2025, 12, 1);
    let kept = filter_prs_by_date_range(&prs, Some(&since), Some(&until));
    assert_eq!(kept.iter().map(|p| p.number).collect::<Vec<_>>(), vec![3]);
    let kept = filter_prs_by_date_range(&prs, None, Some(&until));
    assert_eq!(kept.iter().map(|p| p.number).collect::<Vec<_>>(), vec![1, 2, 3]);
    let kept = filter_prs_by_date_range(&prs, Some(&since), None);
    assert_eq!(kept.iter().map(|p| p.number).collect::<Vec<_>>(), vec![3, 4]);
}

#[test]
fn timestamps_give_dates_and_order() {
    assert_eq!(at(2025, 12, 1).date_text(), "2025-12-01");
    assert!(at(2025, 1, 1).before(&at(2025, 1, 2)));
    assert!(!at(2025, 1, 2).before(&at(2025, 1, 2)));
    assert!(Timestamp::new(0, 2_000_000_000).is_none());
}

#[test]
fn api_pull_requests_are_read_only_when_merged_with_an_address() {
    let p = gh_pr_to_github_pull_request(raw(3, Some(at(2025, 1, 1)), None)).unwrap();
    assert_eq!(p.number, 3);
    assert_eq!(p.labels.len(), 0);
    assert_eq!(p.author, Some("alice".to_string()));
    assert!(gh_pr_to_github_pull_request(raw(4, None, None)).is_none());
    let mut no_url = raw(5, Some(at(2025, 1, 1)), None);
    no_url.html_url = None;
    assert!(gh_pr_to_github_pull_request(no_url).is_none());
    let mut untitled = raw(6, Some(at(2025, 1, 1)), None);
    untitled.title = None;
    assert_eq!(gh_pr_to_github_pull_request(untitled).unwrap().title, "");
}

#[test]
fn pages_between_stop_at_an_old_update() {
    let since = at(2025, 6, 1);
    let page = vec![
        raw(9, Some(at(2025, 7, 1)), Some(at(2025, 7, 1))),
        raw(8, None, Some(at(2025, 6, 20))),
        raw(7, Some(at(2025, 5, 1)), Some(at(2025, 6, 10))),
        raw(6, Some(at(2025, 5, 30)), Some(at(2025, 5, 30))),
        raw(5, Some(at(2025, 6, 5)), Some(at(2025, 6, 5))),
    ];
    let (prs, stop) = prs_page_between(page, Some(&since), None, vec![]);
    assert!(stop);
    assert_eq!(prs.iter().map(|p| p.number).collect::<Vec<_>>(), vec![9]);
    let (prs, stop) = prs_page_between(vec![raw(1, Some(at(2025, 1, 1)), None)], None, Some(&since), prs);
    assert!(!stop);
    assert_eq!(prs.iter().map(|p| p.number).collect::<Vec<_>>(), vec![9, 1]);
}

#[test]
fn pages_of_all_prs_stop_at_the_limit_or_an_empty_page() {
    let (all, stop) = prs_page(vec![], vec![raw(1, Some(at(2025, 1, 1)), None), raw(2, None, None)], 5);
    assert_eq!(all.len(), 1);
    assert!(!stop);
    let (all, stop) = prs_page(all, vec![raw(3, None, None)], 5);
    assert_eq!(all.len(), 1);
    assert!(stop);
    let (all, stop) = prs_page(all, vec![raw(4, Some(at(2025, 1, 2)), None)], 2);
    assert!(stop);
    assert_eq!(truncate_prs(all, 1).len(), 1);
}

#[test]
fn releases_are_sorted_by_creation_and_latest_needs_a_date() {
    let sorted = sort_releases(vec![
        RawRelease { created_at: Some(at(2025, 3, 1)), name: Some("b".to_string()) },
        RawRelease { created_at: None, name: Some("x".to_string()) },
        RawRelease { created_at: Some(at(2025, 1, 1)), name: Some("a".to_string()) },
        RawRelease { created_at: Some(at(2025, 3, 1)), name: Some("c".to_string()) },
    ]);
    let names: Vec<_> = sorted.iter().map(|r| r.name.clone().unwrap()).collect();
    assert_eq!(names, vec!["a", "b", "c"]);
    let latest = latest_release(Some(RawRelease { created_at: Some(at(2025, 2, 2)), name: None }), "o", "r").unwrap();
    assert_eq!(latest.created_at, at(2025, 2, 2));
    let e = latest_release(None, "o", "r").unwrap_err();
    assert_eq!(e.to_string(), "No releases found for o/r");
    assert!(latest_release(Some(RawRelease { created_at: None, name: None }), "o", "r").is_err());
}

#[test]
fn pull_request_sync_decisions() {
    assert_eq!(plan_pull_request_sync(&None, true), PullRequestSync::Create);
    let existing = ExistingPullRequest { number: 8, draft: Some(true), node_id: None };
    assert_eq!(
        plan_pull_request_sync(&Some(existing.clone()), true),
        PullRequestSync::Update { number: 8, change_draft: false }
    );
    assert_eq!(
        plan_pull_request_sync(&Some(existing), false),
        PullRequestSync::Update { number: 8, change_draft: true }
    );
    assert_eq!(draft_node(8, None).unwrap_err(), GitHubError::MissingPullRequestNodeId { number: 8 });
    assert_eq!(draft_node(8, Some("PR_8".to_string())).unwrap(), "PR_8");
    assert_eq!(
        GitHubError::MissingPullRequestNodeId { number: 8 }.to_string(),
        "GitHub did not return a node ID for pull request #8; cannot update its draft state"
    );
    assert_eq!(pull_request_reference(8, None).unwrap_err().to_string(), "GitHub did not return a browser URL for pull request #8");
    assert_eq!(pull_request_reference(8, Some("u".to_string())).unwrap().url, "u");
    let (action, query) = draft_mutation(true);
    assert_eq!(action, "convert GitHub pull request to draft");
    assert!(query.starts_with("mutation ConvertPullRequestToDraft"));
    assert_eq!(draft_mutation(false).0, "mark GitHub pull request ready for review");
    let e = graphql_outcome("do it", Some("[1]".to_string())).unwrap_err();
    assert_eq!(e.to_string(), "Failed to do it: GitHub returned GraphQL errors: [1]");
    assert!(graphql_outcome("do it", None).is_ok());
}

#[test]
fn tokens_and_authentication() {
    assert_eq!(select_token(Some("  ".to_string()), Some("t2".to_string())), Some("t2".to_string()));
    assert_eq!(select_token(Some("t1".to_string()), Some("t2".to_string())), Some("t1".to_string()));
    assert_eq!(select_token(None, None), None);
    assert_eq!(ensure_authenticated(false).unwrap_err(), GitHubError::AuthenticationRequired);
    assert_eq!(
        GitHubError::AuthenticationRequired.to_string(),
        "GitHub authentication is required; set GITHUB_TOKEN or GH_TOKEN"
    );
    assert!(ensure_authenticated(true).is_ok());
}
