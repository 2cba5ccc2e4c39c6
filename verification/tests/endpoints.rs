use contributor_platform::api::{
    authenticate, extract_session_user, found_project, found_user, get_user_response, list_user_responses,
    login_response, require_maintainer, user_response,
};
use contributor_platform::auth::hash_password;
use contributor_platform::config::AppConfig;
use contributor_platform::errors::AppError;
use contributor_platform::frontend::{
    bonus_request, is_top_rank, login_message, maintainer_token, optional_display_name, outcome_message, parse_i64,
    project_filter, shown_name, LoginResponse as FrontLogin,
};
use contributor_platform::models::{Project, Score, Session, User};

fn user(id: i64, login: &str, maintainer: bool) -> User {
    User {
        id,
        github_username: login.to_string(),
        github_pat: "pat".to_string(),
        display_name: Some(format!("{} display", login)),
        avatar_url: None,
        is_maintainer: maintainer,
        created_at: "2024-01-01 00:00:00".to_string(),
        updated_at: "2024-01-01 00:00:00".to_string(),
    }
}

fn session(user_id: i64, token: &str) -> Session {
    Session {
        id: user_id,
        user_id,
        token: token.to_string(),
        created_at: "2024-01-01 00:00:00".to_string(),
        expires_at: "2024-01-08 00:00:00".to_string(),
    }
}

const NOW: &str = "2024-01-02 00:00:00";

#[test]
fn error_messages_and_statuses() {
    let cases = vec![
        (AppError::Db("locked".to_string()), "Database error: locked", 500),
        (AppError::GitHub("rate limited".to_string()), "GitHub API error: rate limited", 502),
        (AppError::NotFound("User not found".to_string()), "Not found: User not found", 404),
        (AppError::BadRequest("Invalid password".to_string()), "Bad request: Invalid password", 400),
    ];
    for (e, msg, code) in cases {
        assert_eq!(e.message(), msg);
        assert_eq!(e.status_code(), code);
    }
}

#[test]
fn default_configuration() {
    let c = AppConfig::default();
    assert_eq!(c.database_path, "./data.db");
    assert_eq!(c.server_host, "127.0.0.1");
    assert_eq!(c.server_port, 8080);
    assert_eq!(c.sync_interval_seconds, 3600);
    assert_eq!(c.frontend_dist_path, "./frontend/dist");
    assert_eq!(c.github_api_base_url, "https://api.github.com");
    assert_eq!(AppConfig::from_parsed(None), c);
    let mut custom = AppConfig::default();
    custom.server_port = 9000;
    assert_eq!(AppConfig::from_parsed(Some(custom.clone())), custom);
}

#[test]
fn session_user_extraction() {
    let users = vec![user(1, "alice", false), user(2, "bob", true)];
    let sessions = vec![session(1, "t1"), session(2, "t2")];
    assert_eq!(extract_session_user(Some("Bearer t1"), &sessions, &users, NOW).map(|u| u.id), Ok(1));
    assert_eq!(
        extract_session_user(None, &sessions, &users, NOW),
        Err(AppError::BadRequest("Missing Authorization header".to_string()))
    );
    assert_eq!(
        extract_session_user(Some("Token t1"), &sessions, &users, NOW),
        Err(AppError::BadRequest("Missing Authorization header".to_string()))
    );
    assert_eq!(
        extract_session_user(Some("Bearer zz"), &sessions, &users, NOW),
        Err(AppError::BadRequest("Invalid or expired session".to_string()))
    );
    assert_eq!(
        extract_session_user(Some("Bearer t1"), &sessions, &users, "2024-02-01 00:00:00"),
        Err(AppError::BadRequest("Invalid or expired session".to_string()))
    );
}

#[test]
fn maintainer_requirement() {
    let users = vec![user(1, "alice", false), user(2, "bob", true)];
    let sessions = vec![session(1, "t1"), session(2, "t2")];
    assert_eq!(require_maintainer(Some("Bearer t2"), &sessions, &users, NOW).map(|u| u.id), Ok(2));
    assert_eq!(
        require_maintainer(Some("Bearer t1"), &sessions, &users, NOW),
        Err(AppError::BadRequest("Only maintainers can perform this action".to_string()))
    );
    assert_eq!(
        require_maintainer(None, &sessions, &users, NOW),
        Err(AppError::BadRequest("Missing Authorization header".to_string()))
    );
}

#[test]
fn login_outcomes() {
    let u = user(2, "bob", true);
    let stored = hash_password("pw");
    assert_eq!(authenticate(Some(u.clone()), Some(stored.clone()), "pw"), Ok(u.clone()));
    assert_eq!(
        authenticate(None, Some(stored.clone()), "pw"),
        Err(AppError::BadRequest("User not found".to_string()))
    );
    assert_eq!(
        authenticate(Some(u.clone()), None, "pw"),
        Err(AppError::BadRequest("Password not set. Use set-password first.".to_string()))
    );
    assert_eq!(
        authenticate(Some(u.clone()), Some(stored), "wrong"),
        Err(AppError::BadRequest("Invalid password".to_string()))
    );
    let resp = login_response("tok".to_string(), &u);
    assert_eq!((resp.token.as_str(), resp.user_id, resp.is_maintainer), ("tok", 2, true));
}

fn score(user_id: i64, project_id: Option<i64>, total: i64) -> Score {
    Score {
        id: 0,
        user_id,
        project_id,
        lines_changed_score: 0,
        comments_score: 0,
        bonus_score: 0,
        total_score: total,
        updated_at: "x".to_string(),
    }
}

#[test]
fn user_responses_carry_global_totals() {
    let users = vec![user(2, "bob", true), user(1, "alice", false)];
    let scores = vec![score(1, Some(5), 100), score(1, None, 42)];
    let list = list_user_responses(&users, &scores);
    let got: Vec<(i64, i64)> = list.iter().map(|r| (r.id, r.total_score)).collect();
    assert_eq!(got, vec![(1, 42), (2, 0)]);
    assert_eq!(list[0].display_name, Some("alice display".to_string()));
    assert_eq!(get_user_response(&users, &scores, 1).map(|r| r.total_score), Ok(42));
    assert_eq!(
        get_user_response(&users, &scores, 3).map(|r| r.id),
        Err(AppError::NotFound("User not found".to_string()))
    );
    let fresh = user_response(&users[0], 0);
    assert_eq!((fresh.id, fresh.github_username.as_str(), fresh.total_score), (2, "bob", 0));
    assert_eq!(found_user(&users, 2).map(|u| u.id), Ok(2));
    assert_eq!(found_user(&users, 9).map(|u| u.id), Err(AppError::NotFound("User not found".to_string())));
}

#[test]
fn project_lookup_answers() {
    let p = Project {
        id: 4,
        owner: "rust-lang".to_string(),
        repo: "rust".to_string(),
        description: None,
        stars: 1,
        forks: 2,
        open_issues: 3,
        language: Some("Rust".to_string()),
        last_synced_at: None,
        created_at: "x".to_string(),
    };
    let projects = vec![p.clone()];
    assert_eq!(found_project(&projects, 4), Ok(p));
    assert_eq!(found_project(&projects, 5), Err(AppError::NotFound("Project not found".to_string())));
}

#[test]
fn parse_integers_like_std() {
    for s in ["0", "42", "-42", "+7", "007", "9223372036854775807", "-9223372036854775808"] {
        assert_eq!(parse_i64(s), s.parse::<i64>().ok(), "{}", s);
    }
    for s in ["", "-", "+", "1a", " 1", "1 ", "9223372036854775808", "-9223372036854775809", "--1", "99999999999999999999999"] {
        assert_eq!(parse_i64(s), None, "{}", s);
        assert!(s.parse::<i64>().is_err());
    }
}

#[test]
fn bonus_form_requests() {
    let b = bonus_request(3, "10", "great review").unwrap();
    assert_eq!((b.user_id, b.project_id, b.points, b.reason.as_str()), (3, None, 10, "great review"));
    assert!(bonus_request(0, "10", "x").is_none());
    assert!(bonus_request(3, "0", "x").is_none());
    assert!(bonus_request(3, "ten", "x").is_none());
    assert_eq!(bonus_request(3, "-5", "x").map(|b| b.points), Some(-5));
}

#[test]
fn front_end_display_helpers() {
    assert_eq!(shown_name(&Some("Alice".to_string()), &"alice".to_string()), "Alice");
    assert_eq!(shown_name(&None, &"alice".to_string()), "alice");
    assert!(is_top_rank(1));
    assert!(is_top_rank(3));
    assert!(!is_top_rank(4));
    let yes = FrontLogin { token: "t".to_string(), user_id: 1, is_maintainer: true };
    let no = FrontLogin { token: "t".to_string(), user_id: 1, is_maintainer: false };
    assert_eq!(maintainer_token(&yes), Some("t".to_string()));
    assert_eq!(maintainer_token(&no), None);
}

#[test]
fn settings_display_name_empty_means_none() {
    assert_eq!(optional_display_name(""), None);
    assert_eq!(optional_display_name("Alice"), Some("Alice".to_string()));
}

#[test]
fn leaderboard_filter_value() {
    assert_eq!(project_filter("0"), None);
    assert_eq!(project_filter(""), None);
    assert_eq!(project_filter("abc"), None);
    assert_eq!(project_filter("7"), Some(7));
    assert_eq!(project_filter("-3"), Some(-3));
}

#[test]
fn form_outcome_messages() {
    assert_eq!(outcome_message("项目添加成功！", &Ok(())), "项目添加成功！");
    assert_eq!(outcome_message("绑定成功！", &Err("HTTP 500".to_string())), "错误: HTTP 500");
}

#[test]
fn login_outcome_messages() {
    let ok = FrontLogin { token: "t".to_string(), user_id: 1, is_maintainer: true };
    assert_eq!(login_message(&Ok(ok)), "");
    let not = FrontLogin { token: "t".to_string(), user_id: 2, is_maintainer: false };
    assert_eq!(login_message(&Ok(not)), "该用户不是维护者，无权操作");
    assert_eq!(login_message(&Err("bad".to_string())), "登录失败: bad");
}
