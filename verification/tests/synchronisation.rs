use contributor_platform::github_types::{GitHubComment, GitHubIssue, GitHubPR, GitHubPRDetail, GitHubRepo, GitHubUser};
use contributor_platform::models::{Project, User};
use contributor_platform::sync::{SyncAction, SyncAll, SyncAllAction, SyncAllEvent, SyncEvent, UserProjectSync};

fn user(id: i64, login: &str) -> User {
    User {
        id,
        github_username: login.to_string(),
        github_pat: "pat".to_string(),
        display_name: None,
        avatar_url: None,
        is_maintainer: false,
        created_at: "c".to_string(),
        updated_at: "u".to_string(),
    }
}

fn project(id: i64) -> Project {
    Project {
        id,
        owner: "o".to_string(),
        repo: format!("r{}", id),
        description: None,
        stars: 0,
        forks: 0,
        open_issues: 0,
        language: None,
        last_synced_at: None,
        created_at: "c".to_string(),
    }
}

fn gh(login: &str) -> GitHubUser {
    GitHubUser { login: login.to_string(), avatar_url: format!("https://avatars/{}", login) }
}

fn gpr(id: u64, number: u64, login: &str) -> GitHubPR {
    GitHubPR {
        id,
        number,
        title: format!("t{}", number),
        state: "closed".to_string(),
        user: gh(login),
        comments: None,
        created_at: "2024-01-01T00:00:00Z".to_string(),
        merged_at: None,
    }
}

fn gcomment(id: u64, login: &str, body: &str) -> GitHubComment {
    GitHubComment { id, body: body.to_string(), user: gh(login), created_at: "2024-01-02T00:00:00Z".to_string() }
}

fn gissue(id: u64, number: u64, login: &str, comments: u64, is_pr: bool) -> GitHubIssue {
    GitHubIssue {
        id,
        number,
        title: format!("i{}", number),
        state: "open".to_string(),
        user: gh(login),
        comments,
        created_at: "2024-01-03T00:00:00Z".to_string(),
        closed_at: None,
        is_pull_request: is_pr,
    }
}

#[test]
fn user_project_sync_writes_only_own_items() {
    let (mut m, a) = UserProjectSync::start(user(1, "alice"), project(10), Some("2024-01-01 00:00:00".to_string()));
    assert_eq!(a, SyncAction::FetchPullRequests);
    let a = m.step(SyncEvent::PullRequests(Ok(vec![gpr(100, 1, "bob"), gpr(200, 2, "alice")])));
    assert_eq!(a, SyncAction::FetchPullRequestDetail { number: 2 });
    let detail = GitHubPRDetail {
        additions: 30,
        deletions: 4,
        changed_files: 2,
        comments: 1,
        merged_at: Some("2024-01-05T00:00:00Z".to_string()),
        state: "closed".to_string(),
    };
    let a = m.step(SyncEvent::Detail(Ok(detail)));
    match a {
        SyncAction::WritePullRequest(p) => {
            assert_eq!((p.github_id, p.user_id, p.project_id, p.state.as_str()), (200, 1, 10, "merged"));
            assert_eq!((p.additions, p.deletions, p.changed_files, p.comments_count), (30, 4, 2, 1));
            assert_eq!(p.title, "t2");
        },
        other => panic!("unexpected {:?}", other),
    }
    let a = m.step(SyncEvent::Written(Ok(())));
    assert_eq!(a, SyncAction::FetchReviewComments { number: 2 });
    let a = m.step(SyncEvent::Comments(Ok(vec![
        gcomment(1, "bob", "x"),
        gcomment(2, "alice", "héllo"),
        gcomment(3, "alice", "ok"),
    ])));
    match a {
        SyncAction::WriteComment(c) => {
            assert_eq!((c.github_id, c.target_type.as_str(), c.target_id, c.body_length), (2, "pr", 200, 6));
            assert_eq!((c.user_id, c.project_id), (1, 10));
        },
        other => panic!("unexpected {:?}", other),
    }
    let a = m.step(SyncEvent::Written(Ok(())));
    match a {
        SyncAction::WriteComment(c) => assert_eq!(c.github_id, 3),
        other => panic!("unexpected {:?}", other),
    }
    assert_eq!(m.step(SyncEvent::Written(Ok(()))), SyncAction::Pause);
    assert_eq!(m.step(SyncEvent::Paused), SyncAction::FetchIssues);
    let a = m.step(SyncEvent::Issues(Ok(vec![
        gissue(1, 1, "alice", 3, true),
        gissue(2, 2, "bob", 1, false),
        gissue(3, 3, "alice", 2, false),
    ])));
    match a {
        SyncAction::WriteIssue(i) => {
            assert_eq!((i.github_id, i.user_id, i.project_id, i.comments_count), (3, 1, 10, 2));
        },
        other => panic!("unexpected {:?}", other),
    }
    assert_eq!(m.step(SyncEvent::Written(Ok(()))), SyncAction::FetchIssueComments { number: 3 });
    assert_eq!(m.step(SyncEvent::Comments(Err("timeout".to_string()))), SyncAction::Pause);
    assert_eq!(m.step(SyncEvent::Paused), SyncAction::FetchProfile);
    assert_eq!(
        m.step(SyncEvent::Profile(Ok(gh("alice")))),
        SyncAction::WriteAvatar("https://avatars/alice".to_string())
    );
    assert_eq!(m.step(SyncEvent::Written(Err("disk".to_string()))), SyncAction::Finish(Ok(4)));
}

#[test]
fn user_project_sync_stops_on_detail_error() {
    let (mut m, _) = UserProjectSync::start(user(1, "alice"), project(10), None);
    m.step(SyncEvent::PullRequests(Ok(vec![gpr(200, 2, "alice")])));
    assert_eq!(m.step(SyncEvent::Detail(Err("404".to_string()))), SyncAction::Finish(Err("404".to_string())));
}

#[test]
fn user_project_sync_unmerged_state_kept() {
    let (mut m, _) = UserProjectSync::start(user(1, "alice"), project(10), None);
    m.step(SyncEvent::PullRequests(Ok(vec![gpr(200, 2, "alice")])));
    let detail = GitHubPRDetail { additions: 1, deletions: 1, changed_files: 1, comments: 0, merged_at: None, state: "open".to_string() };
    match m.step(SyncEvent::Detail(Ok(detail))) {
        SyncAction::WritePullRequest(p) => assert_eq!(p.state, "open"),
        other => panic!("unexpected {:?}", other),
    }
    assert_eq!(m.step(SyncEvent::Written(Err("locked".to_string()))), SyncAction::Finish(Err("locked".to_string())));
}

#[test]
fn user_project_sync_without_items() {
    let (mut m, _) = UserProjectSync::start(user(1, "alice"), project(10), None);
    assert_eq!(m.step(SyncEvent::PullRequests(Ok(vec![gpr(1, 1, "bob")]))), SyncAction::FetchIssues);
    assert_eq!(m.step(SyncEvent::Issues(Ok(vec![]))), SyncAction::FetchProfile);
    assert_eq!(m.step(SyncEvent::Profile(Err("403".to_string()))), SyncAction::Finish(Ok(0)));
    let (mut m, _) = UserProjectSync::start(user(1, "alice"), project(10), None);
    assert_eq!(m.step(SyncEvent::PullRequests(Err("401".to_string()))), SyncAction::Finish(Err("401".to_string())));
}

#[test]
fn full_sync_without_users_finishes_at_once() {
    let (_, a) = SyncAll::start(vec![], vec![project(1)], None);
    assert_eq!(a, SyncAllAction::Finish(Ok(0)));
    let (_, a) = SyncAll::start(vec![user(1, "alice")], vec![], None);
    assert_eq!(a, SyncAllAction::Finish(Ok(0)));
}

#[test]
fn full_sync_runs_pairs_then_repos_then_scores() {
    let (mut m, a) = SyncAll::start(vec![user(1, "alice")], vec![project(10), project(11)], None);
    assert_eq!(a, SyncAllAction::Pair(SyncAction::FetchPullRequests));
    // pair (alice, 10): one own issue, then no profile
    assert_eq!(m.step(SyncAllEvent::Pair(SyncEvent::PullRequests(Ok(vec![])))), SyncAllAction::Pair(SyncAction::FetchIssues));
    match m.step(SyncAllEvent::Pair(SyncEvent::Issues(Ok(vec![gissue(5, 5, "alice", 0, false)])))) {
        SyncAllAction::Pair(SyncAction::WriteIssue(i)) => assert_eq!((i.github_id, i.project_id), (5, 10)),
        other => panic!("unexpected {:?}", other),
    }
    assert_eq!(m.step(SyncAllEvent::Pair(SyncEvent::Written(Ok(())))), SyncAllAction::Pair(SyncAction::Pause));
    assert_eq!(m.step(SyncAllEvent::Pair(SyncEvent::Paused)), SyncAllAction::Pair(SyncAction::FetchProfile));
    assert_eq!(m.step(SyncAllEvent::Pair(SyncEvent::Profile(Err("x".to_string())))), SyncAllAction::Pause);
    assert_eq!(m.total, 1);
    // pair (alice, 11): listing fails and is logged
    assert_eq!(m.step(SyncAllEvent::Paused), SyncAllAction::Pair(SyncAction::FetchPullRequests));
    assert_eq!(
        m.step(SyncAllEvent::Pair(SyncEvent::PullRequests(Err("boom".to_string())))),
        SyncAllAction::LogPairError { user_id: 1, project_id: 11, message: "boom".to_string() }
    );
    assert_eq!(m.step(SyncAllEvent::Logged), SyncAllAction::Pause);
    // repositories
    assert_eq!(m.step(SyncAllEvent::Paused), SyncAllAction::FetchRepo { project_pos: 0, token: "pat".to_string() });
    let repo = GitHubRepo {
        id: 1,
        name: "r10".to_string(),
        full_name: "o/r10".to_string(),
        description: Some("d".to_string()),
        stargazers_count: 12,
        forks_count: 3,
        open_issues_count: 4,
        language: Some("Rust".to_string()),
    };
    assert_eq!(
        m.step(SyncAllEvent::Repo(Ok(repo))),
        SyncAllAction::WriteProjectStats {
            project_id: 10,
            stars: 12,
            forks: 3,
            open_issues: 4,
            description: Some("d".to_string()),
            language: Some("Rust".to_string()),
        }
    );
    assert_eq!(m.step(SyncAllEvent::StatsWritten), SyncAllAction::FetchRepo { project_pos: 1, token: "pat".to_string() });
    assert_eq!(m.step(SyncAllEvent::Repo(Err("404".to_string()))), SyncAllAction::Recalculate);
    assert_eq!(m.step(SyncAllEvent::Recalculated(Ok(()))), SyncAllAction::LogSuccess { items: 1 });
    assert_eq!(m.step(SyncAllEvent::Logged), SyncAllAction::Finish(Ok(1)));
}

#[test]
fn full_sync_reports_store_failure() {
    let (mut m, _) = SyncAll::start(vec![user(1, "alice")], vec![project(10)], None);
    m.step(SyncAllEvent::Pair(SyncEvent::PullRequests(Ok(vec![]))));
    m.step(SyncAllEvent::Pair(SyncEvent::Issues(Ok(vec![]))));
    assert_eq!(m.step(SyncAllEvent::Pair(SyncEvent::Profile(Err("x".to_string())))), SyncAllAction::Pause);
    assert_eq!(m.step(SyncAllEvent::Paused), SyncAllAction::FetchRepo { project_pos: 0, token: "pat".to_string() });
    assert_eq!(m.step(SyncAllEvent::Repo(Err("x".to_string()))), SyncAllAction::Recalculate);
    assert_eq!(
        m.step(SyncAllEvent::Recalculated(Err("poisoned".to_string()))),
        SyncAllAction::Finish(Err("poisoned".to_string()))
    );
}
