//! The records that the platform stores and exchanges.
use vstd::prelude::*;

verus! {

/// A copy of an optional text.
pub fn clone_opt_text(o: &Option<String>) -> (r: Option<String>)
    ensures
        r == *o,
{
    match o {
        Some(s) => Some(s.clone()),
        None => None,
    }
}

/// A registered contributor, bound to a GitHub account.
#[derive(Debug, PartialEq)]
pub struct User {
    pub id: i64,
    pub github_username: String,
    pub github_pat: String,
    pub display_name: Option<String>,
    pub avatar_url: Option<String>,
    pub is_maintainer: bool,
    pub created_at: String,
    pub updated_at: String,
}

impl Clone for User {
    fn clone(&self) -> (r: Self)
        ensures
            r == *self,
    {
        User {
            id: self.id,
            github_username: self.github_username.clone(),
            github_pat: self.github_pat.clone(),
            display_name: clone_opt_text(&self.display_name),
            avatar_url: clone_opt_text(&self.avatar_url),
            is_maintainer: self.is_maintainer,
            created_at: self.created_at.clone(),
            updated_at: self.updated_at.clone(),
        }
    }
}

/// The body of a request that binds a GitHub account.
#[derive(Debug, PartialEq)]
pub struct CreateUserRequest {
    pub github_username: String,
    pub github_pat: String,
    pub display_name: Option<String>,
}

impl Clone for CreateUserRequest {
    fn clone(&self) -> (r: Self)
        ensures
            r == *self,
    {
        CreateUserRequest {
            github_username: self.github_username.clone(),
            github_pat: self.github_pat.clone(),
            display_name: clone_opt_text(&self.display_name),
        }
    }
}

/// The body of a request that changes a contributor; absent fields stay as they are.
#[derive(Debug, PartialEq)]
pub struct UpdateUserRequest {
    pub github_pat: Option<String>,
    pub display_name: Option<String>,
    pub is_maintainer: Option<bool>,
}

impl Clone for UpdateUserRequest {
    fn clone(&self) -> (r: Self)
        ensures
            r == *self,
    {
        UpdateUserRequest {
            github_pat: clone_opt_text(&self.github_pat),
            display_name: clone_opt_text(&self.display_name),
            is_maintainer: self.is_maintainer,
        }
    }
}

/// A contributor as the user endpoints answer with it, with the global total score.
#[derive(Debug, PartialEq)]
pub struct UserResponse {
    pub id: i64,
    pub github_username: String,
    pub display_name: Option<String>,
    pub avatar_url: Option<String>,
    pub is_maintainer: bool,
    pub total_score: i64,
}

impl Clone for UserResponse {
    fn clone(&self) -> (r: Self)
        ensures
            r == *self,
    {
        UserResponse {
            id: self.id,
            github_username: self.github_username.clone(),
            display_name: clone_opt_text(&self.display_name),
            avatar_url: clone_opt_text(&self.avatar_url),
            is_maintainer: self.is_maintainer,
            total_score: self.total_score,
        }
    }
}

/// A tracked GitHub repository with its cached statistics.
#[derive(Debug, PartialEq)]
pub struct Project {
    pub id: i64,
    pub owner: String,
    pub repo: String,
    pub description: Option<String>,
    pub stars: i64,
    pub forks: i64,
    pub open_issues: i64,
    pub language: Option<String>,
    pub last_synced_at: Option<String>,
    pub created_at: String,
}

impl Clone for Project {
    fn clone(&self) -> (r: Self)
        ensures
            r == *self,
    {
        Project {
            id: self.id,
            owner: self.owner.clone(),
            repo: self.repo.clone(),
            description: clone_opt_text(&self.description),
            stars: self.stars,
            forks: self.forks,
            open_issues: self.open_issues,
            language: clone_opt_text(&self.language),
            last_synced_at: clone_opt_text(&self.last_synced_at),
            created_at: self.created_at.clone(),
        }
    }
}

/// The body of a request that starts tracking a repository.
#[derive(Debug, PartialEq)]
pub struct AddProjectRequest {
    pub owner: String,
    pub repo: String,
}

impl Clone for AddProjectRequest {
    fn clone(&self) -> (r: Self)
        ensures
            r == *self,
    {
        AddProjectRequest {
            owner: self.owner.clone(),
            repo: self.repo.clone(),
        }
    }
}

/// A pull request authored by a contributor in a tracked project.
#[derive(Debug, PartialEq)]
pub struct PullRequest {
    pub id: i64,
    pub github_id: i64,
    pub project_id: i64,
    pub user_id: i64,
    pub title: String,
    pub state: String,
    pub additions: i64,
    pub deletions: i64,
    pub changed_files: i64,
    pub comments_count: i64,
    pub created_at: String,
    pub merged_at: Option<String>,
}

impl Clone for PullRequest {
    fn clone(&self) -> (r: Self)
        ensures
            r == *self,
    {
        PullRequest {
            id: self.id,
            github_id: self.github_id,
            project_id: self.project_id,
            user_id: self.user_id,
            title: self.title.clone(),
            state: self.state.clone(),
            additions: self.additions,
            deletions: self.deletions,
            changed_files: self.changed_files,
            comments_count: self.comments_count,
            created_at: self.created_at.clone(),
            merged_at: clone_opt_text(&self.merged_at),
        }
    }
}

/// An issue opened by a contributor in a tracked project.
#[derive(Debug, PartialEq)]
pub struct Issue {
    pub id: i64,
    pub github_id: i64,
    pub project_id: i64,
    pub user_id: i64,
    pub title: String,
    pub state: String,
    pub comments_count: i64,
    pub created_at: String,
    pub closed_at: Option<String>,
}

impl Clone for Issue {
    fn clone(&self) -> (r: Self)
        ensures
            r == *self,
    {
        Issue {
            id: self.id,
            github_id: self.github_id,
            project_id: self.project_id,
            user_id: self.user_id,
            title: self.title.clone(),
            state: self.state.clone(),
            comments_count: self.comments_count,
            created_at: self.created_at.clone(),
            closed_at: clone_opt_text(&self.closed_at),
        }
    }
}

/// A comment by a contributor on an issue (`issue`) or on a pull request (`pr`).
#[derive(Debug, PartialEq)]
pub struct Comment {
    pub id: i64,
    pub github_id: i64,
    pub user_id: i64,
    pub project_id: i64,
    pub target_type: String,
    pub target_id: i64,
    pub body_length: i64,
    pub created_at: String,
}

impl Clone for Comment {
    fn clone(&self) -> (r: Self)
        ensures
            r == *self,
    {
        Comment {
            id: self.id,
            github_id: self.github_id,
            user_id: self.user_id,
            project_id: self.project_id,
            target_type: self.target_type.clone(),
            target_id: self.target_id,
            body_length: self.body_length,
            created_at: self.created_at.clone(),
        }
    }
}

/// A stored score row: per project, or global where `project_id` is `None`.
#[derive(Debug, PartialEq)]
pub struct Score {
    pub id: i64,
    pub user_id: i64,
    pub project_id: Option<i64>,
    pub lines_changed_score: i64,
    pub comments_score: i64,
    pub bonus_score: i64,
    pub total_score: i64,
    pub updated_at: String,
}

impl Clone for Score {
    fn clone(&self) -> (r: Self)
        ensures
            r == *self,
    {
        Score {
            id: self.id,
            user_id: self.user_id,
            project_id: self.project_id,
            lines_changed_score: self.lines_changed_score,
            comments_score: self.comments_score,
            bonus_score: self.bonus_score,
            total_score: self.total_score,
            updated_at: self.updated_at.clone(),
        }
    }
}

/// One ranked row of a leaderboard.
#[derive(Debug, PartialEq)]
pub struct LeaderboardEntry {
    pub rank: u32,
    pub user_id: i64,
    pub github_username: String,
    pub display_name: Option<String>,
    pub avatar_url: Option<String>,
    pub lines_changed_score: i64,
    pub comments_score: i64,
    pub bonus_score: i64,
    pub total_score: i64,
}

impl Clone for LeaderboardEntry {
    fn clone(&self) -> (r: Self)
        ensures
            r == *self,
    {
        LeaderboardEntry {
            rank: self.rank,
            user_id: self.user_id,
            github_username: self.github_username.clone(),
            display_name: clone_opt_text(&self.display_name),
            avatar_url: clone_opt_text(&self.avatar_url),
            lines_changed_score: self.lines_changed_score,
            comments_score: self.comments_score,
            bonus_score: self.bonus_score,
            total_score: self.total_score,
        }
    }
}

/// The body of a request by which a maintainer awards bonus points.
#[derive(Debug, PartialEq)]
pub struct BonusRequest {
    pub user_id: i64,
    pub project_id: Option<i64>,
    pub points: i64,
    pub reason: String,
}

impl Clone for BonusRequest {
    fn clone(&self) -> (r: Self)
        ensures
            r == *self,
    {
        BonusRequest {
            user_id: self.user_id,
            project_id: self.project_id,
            points: self.points,
            reason: self.reason.clone(),
        }
    }
}

/// A stored award of bonus points.
#[derive(Debug, PartialEq)]
pub struct BonusPoint {
    pub id: i64,
    pub user_id: i64,
    pub project_id: Option<i64>,
    pub points: i64,
    pub reason: String,
    pub granted_by: i64,
    pub created_at: String,
}

impl Clone for BonusPoint {
    fn clone(&self) -> (r: Self)
        ensures
            r == *self,
    {
        BonusPoint {
            id: self.id,
            user_id: self.user_id,
            project_id: self.project_id,
            points: self.points,
            reason: self.reason.clone(),
            granted_by: self.granted_by,
            created_at: self.created_at.clone(),
        }
    }
}

/// The body of a login request.
#[derive(Debug, PartialEq)]
pub struct LoginRequest {
    pub username: String,
    pub password: String,
}

impl Clone for LoginRequest {
    fn clone(&self) -> (r: Self)
        ensures
            r == *self,
    {
        LoginRequest {
            username: self.username.clone(),
            password: self.password.clone(),
        }
    }
}

/// The body of a request that sets the caller's password.
#[derive(Debug, PartialEq)]
pub struct SetPasswordRequest {
    pub password: String,
}

impl Clone for SetPasswordRequest {
    fn clone(&self) -> (r: Self)
        ensures
            r == *self,
    {
        SetPasswordRequest {
            password: self.password.clone(),
        }
    }
}

/// The answer to a successful login.
#[derive(Debug, PartialEq)]
pub struct LoginResponse {
    pub token: String,
    pub user_id: i64,
    pub is_maintainer: bool,
}

impl Clone for LoginResponse {
    fn clone(&self) -> (r: Self)
        ensures
            r == *self,
    {
        LoginResponse {
            token: self.token.clone(),
            user_id: self.user_id,
            is_maintainer: self.is_maintainer,
        }
    }
}

/// A stored login session; it is live while `expires_at` sorts after the current time.
#[derive(Debug, PartialEq)]
pub struct Session {
    pub id: i64,
    pub user_id: i64,
    pub token: String,
    pub created_at: String,
    pub expires_at: String,
}

impl Clone for Session {
    fn clone(&self) -> (r: Self)
        ensures
            r == *self,
    {
        Session {
            id: self.id,
            user_id: self.user_id,
            token: self.token.clone(),
            created_at: self.created_at.clone(),
            expires_at: self.expires_at.clone(),
        }
    }
}

/// A stored record of one synchronisation outcome.
#[derive(Debug, PartialEq)]
pub struct SyncLogEntry {
    pub id: i64,
    pub user_id: Option<i64>,
    pub project_id: Option<i64>,
    pub status: String,
    pub error_message: Option<String>,
    pub items_synced: i64,
    pub started_at: String,
    pub finished_at: Option<String>,
}

impl Clone for SyncLogEntry {
    fn clone(&self) -> (r: Self)
        ensures
            r == *self,
    {
        SyncLogEntry {
            id: self.id,
            user_id: self.user_id,
            project_id: self.project_id,
            status: self.status.clone(),
            error_message: clone_opt_text(&self.error_message),
            items_synced: self.items_synced,
            started_at: self.started_at.clone(),
            finished_at: clone_opt_text(&self.finished_at),
        }
    }
}

/// The query string of the bonus history endpoint.
#[derive(Debug, PartialEq)]
pub struct BonusQuery {
    pub user_id: i64,
}

impl Clone for BonusQuery {
    fn clone(&self) -> (r: Self)
        ensures
            r == *self,
    {
        BonusQuery {
            user_id: self.user_id,
        }
    }
}

/// The query string of the contribution endpoints.
#[derive(Debug, PartialEq)]
pub struct ContribQuery {
    pub user_id: i64,
    pub project_id: Option<i64>,
}

impl Clone for ContribQuery {
    fn clone(&self) -> (r: Self)
        ensures
            r == *self,
    {
        ContribQuery {
            user_id: self.user_id,
            project_id: self.project_id,
        }
    }
}

/// The query string of the leaderboard endpoint.
#[derive(Debug, PartialEq)]
pub struct LeaderboardQuery {
    pub project_id: Option<i64>,
    pub limit: Option<i64>,
    pub offset: Option<i64>,
}

impl Clone for LeaderboardQuery {
    fn clone(&self) -> (r: Self)
        ensures
            r == *self,
    {
        LeaderboardQuery {
            project_id: self.project_id,
            limit: self.limit,
            offset: self.offset,
        }
    }
}

} // verus!
