use contributor_platform::frontend::leaderboard_url;
use contributor_platform::github::GitHubClient;
use contributor_platform::text::{to_decimal, to_decimal_signed};

#[test]
fn decimal_rendering_matches_display() {
    for n in [0u128, 7, 10, 99, 100, 12345, u64::MAX as u128, u128::MAX] {
        assert_eq!(to_decimal(n), n.to_string());
    }
    for n in [0i64, -1, 42, -42, i64::MAX, i64::MIN] {
        assert_eq!(to_decimal_signed(n), n.to_string());
    }
}

#[test]
fn github_request_addresses() {
    let c = GitHubClient::new("https://api.github.com");
    assert_eq!(c.user_info_url("alice"), "https://api.github.com/users/alice");
    assert_eq!(c.repo_info_url("rust-lang", "rust"), "https://api.github.com/repos/rust-lang/rust");
    assert_eq!(
        c.pull_requests_url("o", "r", None, 1),
        "https://api.github.com/repos/o/r/pulls?state=all&sort=updated&direction=desc&per_page=100&page=1"
    );
    assert_eq!(
        c.pull_requests_url("o", "r", Some("2024-01-01 00:00:00"), 12),
        "https://api.github.com/repos/o/r/pulls?state=all&sort=updated&direction=desc&per_page=100&page=12&since=2024-01-01 00:00:00"
    );
    assert_eq!(c.pr_detail_url("o", "r", 305), "https://api.github.com/repos/o/r/pulls/305");
    assert_eq!(
        c.issues_url("o", "r", Some("S"), 1),
        "https://api.github.com/repos/o/r/issues?state=all&sort=updated&direction=desc&per_page=100&page=1&since=S"
    );
    assert_eq!(c.issue_comments_url("o", "r", 9, None), "https://api.github.com/repos/o/r/issues/9/comments?per_page=100");
    assert_eq!(
        c.pr_review_comments_url("o", "r", 9, Some("S")),
        "https://api.github.com/repos/o/r/pulls/9/comments?per_page=100&since=S"
    );
}

#[test]
fn front_end_leaderboard_address() {
    assert_eq!(leaderboard_url(None, 50), "/api/v1/leaderboard?limit=50");
    assert_eq!(leaderboard_url(Some(3), 10), "/api/v1/leaderboard?limit=10&project_id=3");
    assert_eq!(leaderboard_url(Some(-3), 0), "/api/v1/leaderboard?limit=0&project_id=-3");
}
