//! The decisions of the HTTP endpoints: who is calling, whether they may,
//! and what is answered. The endpoints read the tables and hand the rows
//! here.
use vstd::prelude::*;
use crate::auth::{bearer_prefix, bearer_token, verify_password, password_hash_spec};
use crate::errors::AppError;
use crate::models::{clone_opt_text, LeaderboardQuery, LoginResponse, Project, Score, Session, User, UserResponse};
use crate::order::{arranged, is_key_order};
use crate::queries::{get_project_by_id, get_user_by_id, get_user_score, list_users, project_has_id, score_row_of, session_user, user_has_id, user_ids, validate_session};
use crate::rows::first_where;
use crate::text::strip_prefix_spec;

verus! {

/// The session token that a request carries: the `Authorization` header's
/// text after `Bearer `, where the header is present and so begins.
pub open spec fn request_token(header: Option<Seq<char>>) -> Option<Seq<char>> {
    match header {
        Some(h) => strip_prefix_spec(h, bearer_prefix()),
        None => None,
    }
}

/// `r` is a refusal of the request with this message.
pub open spec fn is_bad_request(r: AppError, message: Seq<char>) -> bool {
    r matches AppError::BadRequest(m) && m@ == message
}

/// `r` answers that a record is missing, with this message.
pub open spec fn is_not_found(r: AppError, message: Seq<char>) -> bool {
    r matches AppError::NotFound(m) && m@ == message
}

/// The user who makes a request, by the session token in its
/// `Authorization` header (`header` is `None` where the request has none or
/// it is not text) at time `now`.
pub fn extract_session_user(
    header: Option<&str>,
    sessions: &Vec<Session>,
    users: &Vec<User>,
    now: &str,
) -> (r: Result<User, AppError>)
    ensures
        ({
            let h = match header {
                Some(s) => Some(s@),
                None => None,
            };
            match request_token(h) {
                None => r matches Err(e) && is_bad_request(e, "Missing Authorization header"@),
                Some(t) => match session_user(sessions@, users@, t, now@) {
                    Some(u) => r == Ok::<User, AppError>(u),
                    None => r matches Err(e) && is_bad_request(e, "Invalid or expired session"@),
                },
            }
        }),
{
    let token = match header {
        Some(h) => bearer_token(h),
        None => None,
    };
    match token {
        None => Err(AppError::BadRequest(String::from_str("Missing Authorization header"))),
        Some(t) => match validate_session(sessions, users, t.as_str(), now) {
            Some(u) => Ok(u),
            None => Err(AppError::BadRequest(String::from_str("Invalid or expired session"))),
        },
    }
}

/// The maintainer who makes a request: the session user, where a maintainer.
pub fn require_maintainer(
    header: Option<&str>,
    sessions: &Vec<Session>,
    users: &Vec<User>,
    now: &str,
) -> (r: Result<User, AppError>)
    ensures
        ({
            let h = match header {
                Some(s) => Some(s@),
                None => None,
            };
            match request_token(h) {
                None => r matches Err(e) && is_bad_request(e, "Missing Authorization header"@),
                Some(t) => match session_user(sessions@, users@, t, now@) {
                    Some(u) => if u.is_maintainer {
                        r == Ok::<User, AppError>(u)
                    } else {
                        r matches Err(e) && is_bad_request(e, "Only maintainers can perform this action"@)
                    },
                    None => r matches Err(e) && is_bad_request(e, "Invalid or expired session"@),
                },
            }
        }),
{
    let user = extract_session_user(header, sessions, users, now)?;
    if !user.is_maintainer {
        return Err(AppError::BadRequest(String::from_str("Only maintainers can perform this action")));
    }
    Ok(user)
}

/// The user a login names, where the password is right: `found` is the user
/// with the login name, `stored_hash` that user's stored password.
pub fn authenticate(found: Option<User>, stored_hash: Option<String>, password: &str) -> (r: Result<User, AppError>)
    ensures
        match found {
            None => r matches Err(e) && is_bad_request(e, "User not found"@),
            Some(u) => match stored_hash {
                None => r matches Err(e) && is_bad_request(e, "Password not set. Use set-password first."@),
                Some(h) => if password_hash_spec(password@) == h@ {
                    r == Ok::<User, AppError>(u)
                } else {
                    r matches Err(e) && is_bad_request(e, "Invalid password"@)
                },
            },
        },
{
    let user = match found {
        Some(u) => u,
        None => return Err(AppError::BadRequest(String::from_str("User not found"))),
    };
    let stored = match stored_hash {
        Some(h) => h,
        None => return Err(AppError::BadRequest(String::from_str("Password not set. Use set-password first."))),
    };
    if !verify_password(password, stored.as_str()) {
        return Err(AppError::BadRequest(String::from_str("Invalid password")));
    }
    Ok(user)
}

/// The answer to a successful login.
pub fn login_response(token: String, user: &User) -> (r: LoginResponse)
    ensures
        r.token == token,
        r.user_id == user.id,
        r.is_maintainer == user.is_maintainer,
{
    LoginResponse { token, user_id: user.id, is_maintainer: user.is_maintainer }
}

/// A user as the user endpoints answer with it, with a total score.
pub open spec fn is_user_response(r: UserResponse, u: User, total: i64) -> bool {
    &&& r.id == u.id
    &&& r.github_username == u.github_username
    &&& r.display_name == u.display_name
    &&& r.avatar_url == u.avatar_url
    &&& r.is_maintainer == u.is_maintainer
    &&& r.total_score == total
}

/// A user as the user endpoints answer with it.
pub fn user_response(u: &User, total_score: i64) -> (r: UserResponse)
    ensures
        is_user_response(r, *u, total_score),
{
    UserResponse {
        id: u.id,
        github_username: u.github_username.clone(),
        display_name: clone_opt_text(&u.display_name),
        avatar_url: clone_opt_text(&u.avatar_url),
        is_maintainer: u.is_maintainer,
        total_score,
    }
}

/// A contributor's global total score, or zero where they have no score row.
pub open spec fn global_total(scores: Seq<Score>, user_id: i64) -> i64 {
    match first_where(scores, score_row_of(user_id, None)) {
        Some(s) => s.total_score,
        None => 0,
    }
}

/// A contributor's global total score, or zero where they have none.
pub fn global_total_score(scores: &Vec<Score>, user_id: i64) -> (t: i64)
    ensures
        t == global_total(scores@, user_id),
{
    match get_user_score(scores, user_id, None) {
        Some(s) => s.total_score,
        None => 0,
    }
}

/// The answer of the user listing: every user by id, each with the global
/// total score.
pub fn list_user_responses(users: &Vec<User>, scores: &Vec<Score>) -> (r: Vec<UserResponse>)
    ensures
        exists|perm: Seq<usize>|
            {
                &&& is_key_order(user_ids(users@), false, perm)
                &&& r.len() == perm.len()
                &&& forall|k: int|
                    0 <= k < perm.len() ==> is_user_response(
                        #[trigger] r@[k],
                        arranged(users@, perm)[k],
                        global_total(scores@, arranged(users@, perm)[k].id),
                    )
            },
{
    let listed = list_users(users);
    let ghost perm = choose|perm: Seq<usize>| is_key_order(user_ids(users@), false, perm) && listed@ == arranged(users@, perm);
    let mut r: Vec<UserResponse> = Vec::new();
    let mut k: usize = 0;
    while k < listed.len()
        invariant
            k <= listed.len(),
            r.len() == k,
            forall|x: int|
                0 <= x < k ==> is_user_response(#[trigger] r@[x], listed@[x], global_total(scores@, listed@[x].id)),
        decreases listed.len() - k,
    {
        let total = global_total_score(scores, listed[k].id);
        r.push(user_response(&listed[k], total));
        k = k + 1;
    }
    proof {
        assert(listed@.len() == perm.len());
    }
    r
}

/// The answer about one user: the user with the global total score, or
/// `User not found`.
pub fn get_user_response(users: &Vec<User>, scores: &Vec<Score>, id: i64) -> (r: Result<UserResponse, AppError>)
    ensures
        match first_where(users@, user_has_id(id)) {
            Some(u) => r matches Ok(resp) && is_user_response(resp, u, global_total(scores@, id)),
            None => r matches Err(e) && is_not_found(e, "User not found"@),
        },
{
    match get_user_by_id(users, id) {
        Some(u) => {
            let total = global_total_score(scores, id);
            Ok(user_response(&u, total))
        },
        None => Err(AppError::NotFound(String::from_str("User not found"))),
    }
}

/// The user after a write that should have produced it (creation or
/// change), or `User not found`.
pub fn found_user(users: &Vec<User>, id: i64) -> (r: Result<User, AppError>)
    ensures
        match first_where(users@, user_has_id(id)) {
            Some(u) => r == Ok::<User, AppError>(u),
            None => r matches Err(e) && is_not_found(e, "User not found"@),
        },
{
    match get_user_by_id(users, id) {
        Some(u) => Ok(u),
        None => Err(AppError::NotFound(String::from_str("User not found"))),
    }
}

/// The project with this id, or `Project not found`.
pub fn found_project(projects: &Vec<Project>, id: i64) -> (r: Result<Project, AppError>)
    ensures
        match first_where(projects@, project_has_id(id)) {
            Some(p) => r == Ok::<Project, AppError>(p),
            None => r matches Err(e) && is_not_found(e, "Project not found"@),
        },
{
    match get_project_by_id(projects, id) {
        Some(p) => Ok(p),
        None => Err(AppError::NotFound(String::from_str("Project not found"))),
    }
}

/// The page that a leaderboard request asks for: `limit` (fifty where
/// absent) rows from `offset` (zero where absent).
pub fn page_params(q: &LeaderboardQuery) -> (r: (i64, i64))
    ensures
        r.0 == (match q.limit {
            Some(l) => l,
            None => 50,
        }),
        r.1 == (match q.offset {
            Some(o) => o,
            None => 0,
        }),
{
    let limit = match q.limit {
        Some(l) => l,
        None => 50,
    };
    let offset = match q.offset {
        Some(o) => o,
        None => 0,
    };
    (limit, offset)
}

} // verus!
