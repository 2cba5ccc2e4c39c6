use contributor_platform::models::{
    BonusPoint, Comment, Issue, LeaderboardQuery, Project, PullRequest, Score, Session, SyncLogEntry,
    UpdateUserRequest, User,
};
use contributor_platform::queries::{
    apply_user_update, cleanup_expired_sessions, get_bonus_by_user, get_comments_by_user,
    get_issues_by_user, get_last_sync, get_project_by_id, get_prs_by_user, get_user_by_id,
    get_user_by_username, get_user_score, list_projects, list_users, validate_session,
};
use contributor_platform::ranking::{get_leaderboard, list_projects_by_hotness};
use contributor_platform::scoring::{
    compute_bonus_total, compute_comments_score, compute_lines_score, get_project_hotness,
    recalculate_all_scores, score_total,
};
use contributor_platform::api::page_params;

fn user(id: i64, login: &str, maintainer: bool) -> User {
    User {
        id,
        github_username: login.to_string(),
        github_pat: format!("pat-{}", id),
        display_name: None,
        avatar_url: None,
        is_maintainer: maintainer,
        created_at: "2024-01-01 00:00:00".to_string(),
        updated_at: "2024-01-01 00:00:00".to_string(),
    }
}

fn project(id: i64, stars: i64) -> Project {
    Project {
        id,
        owner: "owner".to_string(),
        repo: format!("repo{}", id),
        description: None,
        stars,
        forks: 0,
        open_issues: 0,
        language: None,
        last_synced_at: None,
        created_at: "2024-01-01 00:00:00".to_string(),
    }
}

fn pr(id: i64, user_id: i64, project_id: i64, state: &str, merged: bool, add: i64, del: i64, created: &str) -> PullRequest {
    PullRequest {
        id,
        github_id: 1000 + id,
        project_id,
        user_id,
        title: format!("pr {}", id),
        state: state.to_string(),
        additions: add,
        deletions: del,
        changed_files: 1,
        comments_count: 4,
        created_at: created.to_string(),
        merged_at: if merged { Some("2024-02-01T00:00:00Z".to_string()) } else { None },
    }
}

fn comment(id: i64, user_id: i64, project_id: i64, target: &str, created: &str) -> Comment {
    Comment {
        id,
        github_id: 5000 + id,
        user_id,
        project_id,
        target_type: target.to_string(),
        target_id: 1,
        body_length: 10,
        created_at: created.to_string(),
    }
}

fn issue(id: i64, user_id: i64, project_id: i64, created: &str) -> Issue {
    Issue {
        id,
        github_id: 7000 + id,
        project_id,
        user_id,
        title: format!("issue {}", id),
        state: "open".to_string(),
        comments_count: 0,
        created_at: created.to_string(),
        closed_at: None,
    }
}

fn bonus(id: i64, user_id: i64, project_id: Option<i64>, points: i64, created: &str) -> BonusPoint {
    BonusPoint {
        id,
        user_id,
        project_id,
        points,
        reason: "review".to_string(),
        granted_by: 1,
        created_at: created.to_string(),
    }
}

fn score(id: i64, user_id: i64, project_id: Option<i64>, total: i64) -> Score {
    Score {
        id,
        user_id,
        project_id,
        lines_changed_score: total,
        comments_score: 0,
        bonus_score: 0,
        total_score: total,
        updated_at: "2024-01-01 00:00:00".to_string(),
    }
}

#[test]
fn lines_score_counts_merged_prs_only() {
    let prs = vec![
        pr(1, 1, 10, "merged", false, 10, 5, "2024-01-01"),
        pr(2, 1, 10, "closed", true, 4, 0, "2024-01-02"),
        pr(3, 1, 10, "open", false, 1000, 1000, "2024-01-03"),
        pr(4, 2, 10, "merged", true, 77, 0, "2024-01-04"),
    ];
    // 10 + 5 * 0.5 + 4 = 16.5, cut to 16
    assert_eq!(compute_lines_score(&prs, 1, None), 16);
    assert_eq!(compute_lines_score(&prs, 1, Some(10)), 16);
    assert_eq!(compute_lines_score(&prs, 1, Some(11)), 0);
    assert_eq!(compute_lines_score(&prs, 2, None), 77);
    assert_eq!(compute_lines_score(&prs, 3, None), 0);
}

#[test]
fn lines_score_halves_deletions_toward_zero() {
    let prs = vec![pr(1, 1, 10, "merged", true, 0, 3, "2024-01-01")];
    assert_eq!(compute_lines_score(&prs, 1, None), 1);
    let neg = vec![pr(1, 1, 10, "merged", true, 0, -3, "2024-01-01")];
    assert_eq!(compute_lines_score(&neg, 1, None), -1);
}

#[test]
fn lines_score_saturates() {
    let prs = vec![
        pr(1, 1, 10, "merged", true, i64::MAX, 0, "2024-01-01"),
        pr(2, 1, 10, "merged", true, i64::MAX, 0, "2024-01-01"),
    ];
    assert_eq!(compute_lines_score(&prs, 1, None), i64::MAX);
}

#[test]
fn comments_score_weights() {
    let comments = vec![
        comment(1, 1, 10, "issue", "2024-01-01"),
        comment(2, 1, 10, "issue", "2024-01-01"),
        comment(3, 1, 10, "pr", "2024-01-01"),
        comment(4, 1, 11, "pr", "2024-01-01"),
        comment(5, 2, 10, "pr", "2024-01-01"),
        comment(6, 1, 10, "other", "2024-01-01"),
    ];
    let issues = vec![issue(1, 1, 10, "2024-01-01"), issue(2, 2, 10, "2024-01-01")];
    // global: 2 issue comments * 2 + 2 pr comments * 3 + 1 issue * 5 = 15
    assert_eq!(compute_comments_score(&comments, &issues, 1, None), Some(15));
    // project 10: 2*2 + 1*3 + 5 = 12
    assert_eq!(compute_comments_score(&comments, &issues, 1, Some(10)), Some(12));
    assert_eq!(compute_comments_score(&comments, &issues, 1, Some(11)), Some(3));
    assert_eq!(compute_comments_score(&comments, &issues, 9, None), Some(0));
}

#[test]
fn bonus_total_scopes() {
    let bonuses = vec![
        bonus(1, 1, None, 10, "2024-01-01"),
        bonus(2, 1, Some(10), 5, "2024-01-01"),
        bonus(3, 1, Some(11), 7, "2024-01-01"),
        bonus(4, 2, None, 100, "2024-01-01"),
    ];
    assert_eq!(compute_bonus_total(&bonuses, 1, None), Some(22));
    assert_eq!(compute_bonus_total(&bonuses, 1, Some(10)), Some(15));
    assert_eq!(compute_bonus_total(&bonuses, 1, Some(11)), Some(17));
    assert_eq!(compute_bonus_total(&bonuses, 1, Some(12)), Some(10));
    assert_eq!(compute_bonus_total(&bonuses, 3, None), Some(0));
}

#[test]
fn bonus_total_overflow_is_none() {
    let bonuses = vec![bonus(1, 1, None, i64::MAX, "x"), bonus(2, 1, None, 1, "x")];
    assert_eq!(compute_bonus_total(&bonuses, 1, None), None);
}

#[test]
fn score_total_sums_parts() {
    assert_eq!(score_total(16, 15, 22), Some(53));
    assert_eq!(score_total(-5, 0, 5), Some(0));
    assert_eq!(score_total(i64::MAX, 1, 0), None);
    assert_eq!(score_total(i64::MIN, -1, 0), None);
}

#[test]
fn recalculation_produces_global_then_project_rows() {
    let users = vec![user(1, "alice", false), user(2, "bob", false)];
    let projects = vec![project(10, 5), project(11, 9)];
    let prs = vec![pr(1, 1, 10, "merged", true, 10, 4, "2024-01-01")];
    let issues = vec![issue(1, 2, 11, "2024-01-01")];
    let comments = vec![comment(1, 1, 11, "issue", "2024-01-01")];
    let bonuses = vec![bonus(1, 2, None, 3, "2024-01-01")];
    let rows = recalculate_all_scores(&users, &projects, &prs, &issues, &comments, &bonuses).unwrap();
    assert_eq!(rows.len(), 2);
    assert_eq!(rows[0].len(), 3);
    let a = &rows[0];
    assert_eq!((a[0].user_id, a[0].project_id), (1, None));
    assert_eq!((a[0].lines_changed_score, a[0].comments_score, a[0].bonus_score, a[0].total_score), (12, 2, 0, 14));
    assert_eq!((a[1].project_id, a[1].total_score), (Some(10), 12));
    assert_eq!((a[2].project_id, a[2].total_score), (Some(11), 2));
    let b = &rows[1];
    assert_eq!((b[0].comments_score, b[0].bonus_score, b[0].total_score), (5, 3, 8));
    assert_eq!((b[1].project_id, b[1].total_score), (Some(10), 3));
    assert_eq!((b[2].project_id, b[2].total_score), (Some(11), 8));
}

#[test]
fn recalculation_refuses_overflowing_total() {
    let users = vec![user(1, "alice", false)];
    let projects = vec![project(10, 5)];
    let prs = vec![pr(1, 1, 10, "merged", true, i64::MAX, 0, "2024-01-01")];
    let bonuses = vec![bonus(1, 1, None, 1, "2024-01-01")];
    assert!(recalculate_all_scores(&users, &projects, &prs, &vec![], &vec![], &bonuses).is_none());
}

#[test]
fn hotness_counts_recent_activity() {
    let since = "2024-03-01 00:00:00";
    let prs = vec![
        pr(1, 1, 10, "merged", true, 10, 4, "2024-03-05T00:00:00Z"),
        pr(2, 2, 10, "merged", true, 100, 0, "2024-02-01T00:00:00Z"),
        pr(3, 1, 10, "open", false, 50, 0, "2024-03-05T00:00:00Z"),
        pr(4, 1, 11, "merged", true, 7, 0, "2024-03-05T00:00:00Z"),
    ];
    let comments = vec![comment(1, 1, 10, "pr", "2024-03-02T00:00:00Z"), comment(2, 2, 10, "issue", "2024-01-01T00:00:00Z")];
    let issues = vec![issue(1, 3, 10, "2024-03-09T00:00:00Z")];
    let bonuses = vec![
        bonus(1, 1, Some(10), 4, "2024-03-03 10:00:00"),
        bonus(2, 1, None, 50, "2024-03-03 10:00:00"),
        bonus(3, 1, Some(10), 9, "2024-01-03 10:00:00"),
    ];
    // lines 12 + 1 comment * 3 + 1 issue * 5 + bonus 4 = 24
    assert_eq!(get_project_hotness(&prs, &comments, &issues, &bonuses, 10, since), Some(24));
    assert_eq!(get_project_hotness(&prs, &comments, &issues, &bonuses, 11, since), Some(7));
    assert_eq!(get_project_hotness(&prs, &comments, &issues, &bonuses, 12, since), Some(0));
}

#[test]
fn hotness_overflow_is_none() {
    let bonuses = vec![bonus(1, 1, Some(10), i64::MAX, "2024-03-03"), bonus(2, 1, Some(10), 1, "2024-03-03")];
    assert_eq!(get_project_hotness(&vec![], &vec![], &vec![], &bonuses, 10, "2024-01-01"), None);
}

#[test]
fn projects_by_hotness_then_stars() {
    let projects = vec![project(1, 5), project(2, 50), project(3, 20), project(4, 20)];
    let since = "2024-03-01";
    let issues = vec![issue(1, 1, 1, "2024-03-05"), issue(2, 1, 4, "2024-03-05")];
    let listed = list_projects_by_hotness(&projects, &vec![], &vec![], &issues, &vec![], since);
    let order: Vec<(i64, i64)> = listed.iter().map(|(p, h)| (p.id, *h)).collect();
    assert_eq!(order, vec![(4, 5), (1, 5), (2, 0), (3, 0)]);
}

#[test]
fn list_projects_by_stars_stable() {
    let projects = vec![project(1, 5), project(2, 50), project(3, 20), project(4, 20)];
    let ids: Vec<i64> = list_projects(&projects).iter().map(|p| p.id).collect();
    assert_eq!(ids, vec![2, 3, 4, 1]);
}

#[test]
fn list_users_by_id() {
    let users = vec![user(3, "c", false), user(1, "a", false), user(2, "b", false)];
    let ids: Vec<i64> = list_users(&users).iter().map(|u| u.id).collect();
    assert_eq!(ids, vec![1, 2, 3]);
}

#[test]
fn user_lookups() {
    let users = vec![user(3, "carol", false), user(1, "alice", true)];
    assert_eq!(get_user_by_id(&users, 1).map(|u| u.github_username), Some("alice".to_string()));
    assert!(get_user_by_id(&users, 2).is_none());
    assert_eq!(get_user_by_username(&users, "carol").map(|u| u.id), Some(3));
    assert!(get_user_by_username(&users, "Carol").is_none());
    let projects = vec![project(7, 1)];
    assert_eq!(get_project_by_id(&projects, 7).map(|p| p.stars), Some(1));
    assert!(get_project_by_id(&projects, 8).is_none());
}

#[test]
fn contributions_latest_first() {
    let prs = vec![
        pr(1, 1, 10, "open", false, 0, 0, "2024-01-01T00:00:00Z"),
        pr(2, 1, 11, "open", false, 0, 0, "2024-03-01T00:00:00Z"),
        pr(3, 2, 10, "open", false, 0, 0, "2024-05-01T00:00:00Z"),
        pr(4, 1, 10, "open", false, 0, 0, "2024-02-01T00:00:00Z"),
    ];
    let all: Vec<i64> = get_prs_by_user(&prs, 1, None).iter().map(|p| p.id).collect();
    assert_eq!(all, vec![2, 4, 1]);
    let in10: Vec<i64> = get_prs_by_user(&prs, 1, Some(10)).iter().map(|p| p.id).collect();
    assert_eq!(in10, vec![4, 1]);
    let issues = vec![issue(1, 1, 10, "2024-01-01"), issue(2, 1, 10, "2024-01-09"), issue(3, 1, 12, "2024-01-05")];
    let ids: Vec<i64> = get_issues_by_user(&issues, 1, None).iter().map(|i| i.id).collect();
    assert_eq!(ids, vec![2, 3, 1]);
    let comments = vec![comment(1, 1, 10, "pr", "2024-01-01"), comment(2, 1, 10, "issue", "2024-01-01"), comment(3, 1, 10, "pr", "2024-01-02")];
    let ids: Vec<i64> = get_comments_by_user(&comments, 1, Some(10)).iter().map(|c| c.id).collect();
    assert_eq!(ids, vec![3, 1, 2]);
    let bonuses = vec![bonus(1, 1, None, 1, "2024-01-01"), bonus(2, 2, None, 1, "2024-01-05"), bonus(3, 1, None, 1, "2024-01-03")];
    let ids: Vec<i64> = get_bonus_by_user(&bonuses, 1).iter().map(|b| b.id).collect();
    assert_eq!(ids, vec![3, 1]);
}

#[test]
fn user_score_by_scope() {
    let scores = vec![score(1, 1, Some(10), 5), score(2, 1, None, 9), score(3, 2, None, 4)];
    assert_eq!(get_user_score(&scores, 1, None).map(|s| s.total_score), Some(9));
    assert_eq!(get_user_score(&scores, 1, Some(10)).map(|s| s.total_score), Some(5));
    assert!(get_user_score(&scores, 1, Some(11)).is_none());
    assert!(get_user_score(&scores, 3, None).is_none());
}

fn log(id: i64, status: &str, finished: Option<&str>) -> SyncLogEntry {
    SyncLogEntry {
        id,
        user_id: None,
        project_id: None,
        status: status.to_string(),
        error_message: None,
        items_synced: 0,
        started_at: "s".to_string(),
        finished_at: finished.map(|f| f.to_string()),
    }
}

#[test]
fn last_sync_is_latest_success() {
    assert_eq!(get_last_sync(&vec![]), None);
    let logs = vec![
        log(1, "success", Some("2024-01-01 00:00:00")),
        log(3, "success", Some("2024-01-03 00:00:00")),
        log(2, "success", Some("2024-01-02 00:00:00")),
        log(4, "error", Some("2024-01-04 00:00:00")),
    ];
    assert_eq!(get_last_sync(&logs), Some("2024-01-03 00:00:00".to_string()));
    assert_eq!(get_last_sync(&vec![log(1, "error", Some("x"))]), None);
}

fn session(id: i64, user_id: i64, token: &str, expires: &str) -> Session {
    Session {
        id,
        user_id,
        token: token.to_string(),
        created_at: "2024-01-01 00:00:00".to_string(),
        expires_at: expires.to_string(),
    }
}

#[test]
fn sessions_validate_until_expiry() {
    let users = vec![user(1, "alice", true)];
    let sessions = vec![
        session(1, 1, "live", "2024-01-08 00:00:00"),
        session(2, 1, "old", "2024-01-02 00:00:00"),
        session(3, 9, "orphan", "2024-01-08 00:00:00"),
    ];
    let now = "2024-01-05 00:00:00";
    assert_eq!(validate_session(&sessions, &users, "live", now).map(|u| u.id), Some(1));
    assert!(validate_session(&sessions, &users, "old", now).is_none());
    assert!(validate_session(&sessions, &users, "orphan", now).is_none());
    assert!(validate_session(&sessions, &users, "nope", now).is_none());
    assert!(validate_session(&sessions, &users, "live", "2024-01-08 00:00:00").is_none());
}

#[test]
fn cleanup_keeps_live_sessions_and_validation() {
    let users = vec![user(1, "alice", true)];
    let sessions = vec![
        session(1, 1, "live", "2024-01-08 00:00:00"),
        session(2, 1, "old", "2024-01-02 00:00:00"),
        session(3, 1, "edge", "2024-01-05 00:00:00"),
    ];
    let now = "2024-01-05 00:00:00";
    let kept = cleanup_expired_sessions(&sessions, now);
    assert_eq!(kept.iter().map(|s| s.id).collect::<Vec<_>>(), vec![1]);
    for t in ["live", "old", "edge", "none"] {
        assert_eq!(
            validate_session(&kept, &users, t, now).map(|u| u.id),
            validate_session(&sessions, &users, t, now).map(|u| u.id)
        );
    }
}

#[test]
fn user_update_replaces_given_fields() {
    let u = user(1, "alice", false);
    let req = UpdateUserRequest { github_pat: None, display_name: Some("Alice".to_string()), is_maintainer: Some(true) };
    let v = apply_user_update(&u, &req, "2024-06-01 00:00:00");
    assert_eq!(v.display_name, Some("Alice".to_string()));
    assert!(v.is_maintainer);
    assert_eq!(v.github_pat, "pat-1");
    assert_eq!(v.updated_at, "2024-06-01 00:00:00");
    let none = UpdateUserRequest { github_pat: None, display_name: None, is_maintainer: None };
    assert_eq!(apply_user_update(&u, &none, "2024-06-01 00:00:00"), u);
}

fn board_users() -> Vec<User> {
    vec![user(1, "alice", false), user(2, "bob", false), user(3, "carol", false)]
}

#[test]
fn leaderboard_orders_and_ranks() {
    let scores = vec![
        score(1, 1, None, 10),
        score(2, 2, None, 30),
        score(3, 3, None, 20),
        score(4, 1, Some(7), 99),
        score(5, 9, None, 1000),
    ];
    let page = get_leaderboard(&scores, &board_users(), None, 50, 0).unwrap();
    let got: Vec<(u32, i64, i64)> = page.iter().map(|e| (e.rank, e.user_id, e.total_score)).collect();
    assert_eq!(got, vec![(1, 2, 30), (2, 3, 20), (3, 1, 10)]);
    assert_eq!(page[0].github_username, "bob");
    let project_page = get_leaderboard(&scores, &board_users(), Some(7), 50, 0).unwrap();
    assert_eq!(project_page.iter().map(|e| (e.rank, e.user_id)).collect::<Vec<_>>(), vec![(1, 1)]);
}

#[test]
fn leaderboard_paging() {
    let scores = vec![score(1, 1, None, 10), score(2, 2, None, 30), score(3, 3, None, 20)];
    let page = get_leaderboard(&scores, &board_users(), None, 1, 1).unwrap();
    assert_eq!(page.iter().map(|e| (e.rank, e.user_id)).collect::<Vec<_>>(), vec![(2, 3)]);
    let all = get_leaderboard(&scores, &board_users(), None, -1, 0).unwrap();
    assert_eq!(all.len(), 3);
    let past = get_leaderboard(&scores, &board_users(), None, 10, 5).unwrap();
    assert!(past.is_empty());
}

#[test]
fn leaderboard_ties_keep_table_order() {
    let scores = vec![score(1, 3, None, 10), score(2, 1, None, 10), score(3, 2, None, 10)];
    let page = get_leaderboard(&scores, &board_users(), None, 50, 0).unwrap();
    assert_eq!(page.iter().map(|e| e.user_id).collect::<Vec<_>>(), vec![3, 1, 2]);
}

#[test]
fn leaderboard_negative_offset_rank_overflow() {
    let scores = vec![score(1, 1, None, 10), score(2, 2, None, 30)];
    // the offset cut to 32 bits is u32::MAX: the first rank would pass u32::MAX
    assert!(get_leaderboard(&scores, &board_users(), None, 50, -1).is_none());
    // a page of nothing has no rank to overflow
    assert_eq!(get_leaderboard(&scores, &board_users(), None, 0, -1), Some(vec![]));
    // -2 cuts to u32::MAX - 1: one row fits, rank u32::MAX, rows start at 0
    let one = get_leaderboard(&scores, &board_users(), None, 1, -2).unwrap();
    assert_eq!(one.iter().map(|e| (e.rank, e.user_id)).collect::<Vec<_>>(), vec![(u32::MAX, 2)]);
}

#[test]
fn leaderboard_query_defaults() {
    let q = LeaderboardQuery { project_id: None, limit: None, offset: None };
    assert_eq!(page_params(&q), (50, 0));
    let q = LeaderboardQuery { project_id: Some(3), limit: Some(5), offset: Some(10) };
    assert_eq!(page_params(&q), (5, 10));
}

#[test]
fn paging_keeps_ranks() {
    let scores = vec![
        score(1, 1, None, 10),
        score(2, 2, None, 30),
        score(3, 3, None, 20),
        score(4, 1, Some(7), 5),
    ];
    for (limit, offset) in [(1i64, 0i64), (1, 1), (2, 1), (1, 2), (3, 0), (2, 3), (0, 1)] {
        let page = get_leaderboard(&scores, &board_users(), None, limit, offset).unwrap();
        let top = get_leaderboard(&scores, &board_users(), None, limit + offset, 0).unwrap();
        let from = (offset as usize).min(top.len());
        assert_eq!(page, top[from..].to_vec());
    }
}

#[test]
fn one_more_comment_or_issue_anywhere() {
    let comments = vec![comment(1, 1, 10, "issue", "2024-01-01"), comment(2, 2, 10, "pr", "2024-01-01")];
    let issues = vec![issue(1, 1, 10, "2024-01-01")];
    let before_global = compute_comments_score(&comments, &issues, 1, None).unwrap();
    let before_p10 = compute_comments_score(&comments, &issues, 1, Some(10)).unwrap();
    let before_p11 = compute_comments_score(&comments, &issues, 1, Some(11)).unwrap();
    let before_other = compute_comments_score(&comments, &issues, 2, None).unwrap();
    let mut more = comments.clone();
    more.insert(0, comment(3, 1, 10, "pr", "2024-01-02"));
    assert_eq!(compute_comments_score(&more, &issues, 1, None), Some(before_global + 3));
    assert_eq!(compute_comments_score(&more, &issues, 1, Some(10)), Some(before_p10 + 3));
    assert_eq!(compute_comments_score(&more, &issues, 1, Some(11)), Some(before_p11));
    assert_eq!(compute_comments_score(&more, &issues, 2, None), Some(before_other));
    let mut more = comments.clone();
    more.insert(1, comment(4, 1, 10, "issue", "2024-01-02"));
    assert_eq!(compute_comments_score(&more, &issues, 1, None), Some(before_global + 2));
    let mut more_issues = issues.clone();
    more_issues.insert(0, issue(2, 1, 10, "2024-01-02"));
    assert_eq!(compute_comments_score(&comments, &more_issues, 1, None), Some(before_global + 5));
    assert_eq!(compute_comments_score(&comments, &more_issues, 1, Some(11)), Some(before_p11));
    assert_eq!(compute_comments_score(&comments, &more_issues, 2, None), Some(before_other));
}

#[test]
fn hotness_listing_is_sorted_and_complete() {
    let projects = vec![project(1, 5), project(2, 50), project(3, 20), project(4, 20)];
    let since = "2024-03-01";
    let prs = vec![pr(1, 1, 3, "merged", true, 4, 0, "2024-03-02")];
    let issues = vec![issue(1, 1, 1, "2024-03-05"), issue(2, 1, 4, "2024-03-05")];
    let comments = vec![comment(1, 1, 2, "pr", "2024-03-03")];
    let listed = list_projects_by_hotness(&projects, &prs, &comments, &issues, &vec![], since);
    assert_eq!(listed.len(), projects.len());
    for w in listed.windows(2) {
        assert!(w[0].1 >= w[1].1);
        if w[0].1 == w[1].1 {
            assert!(w[0].0.stars >= w[1].0.stars);
        }
    }
    for (p, h) in &listed {
        assert_eq!(Some(*h), get_project_hotness(&prs, &comments, &issues, &vec![], p.id, since));
    }
    let mut ids: Vec<i64> = listed.iter().map(|(p, _)| p.id).collect();
    ids.sort();
    assert_eq!(ids, vec![1, 2, 3, 4]);
}

#[test]
fn session_lives_until_expiry_and_dies_on_delete() {
    let users = vec![user(1, "alice", true)];
    let mut sessions = vec![session(1, 1, "other", "2024-01-08 00:00:00")];
    let now = "2024-01-05 00:00:00";
    assert!(validate_session(&sessions, &users, "fresh", now).is_none());
    sessions.push(session(2, 1, "fresh", "2024-01-12 00:00:00"));
    assert_eq!(validate_session(&sessions, &users, "fresh", now).map(|u| u.id), Some(1));
    assert_eq!(validate_session(&sessions, &users, "fresh", "2024-01-11 23:59:59").map(|u| u.id), Some(1));
    assert!(validate_session(&sessions, &users, "fresh", "2024-01-12 00:00:00").is_none());
    let remaining: Vec<Session> = sessions.iter().filter(|s| s.token != "fresh").cloned().collect();
    assert!(validate_session(&remaining, &users, "fresh", now).is_none());
    assert_eq!(validate_session(&remaining, &users, "other", now).map(|u| u.id), Some(1));
}

#[test]
fn recalculated_rows_have_distinct_keys() {
    let users = vec![user(1, "alice", false), user(2, "bob", false), user(3, "carol", false)];
    let projects = vec![project(10, 5), project(11, 9)];
    let rows = recalculate_all_scores(&users, &projects, &vec![], &vec![], &vec![], &vec![]).unwrap();
    let mut keys: Vec<(i64, Option<i64>)> = rows.iter().flatten().map(|r| (r.user_id, r.project_id)).collect();
    let n = keys.len();
    keys.sort();
    keys.dedup();
    assert_eq!(keys.len(), n);
    assert_eq!(n, 9);
}
