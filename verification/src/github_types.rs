//! The GitHub API objects that synchronisation reads.
use vstd::prelude::*;
use crate::models::clone_opt_text;

verus! {

/// A GitHub account as the API describes it.
#[derive(Debug, PartialEq)]
pub struct GitHubUser {
    pub login: String,
    pub avatar_url: String,
}

impl Clone for GitHubUser {
    fn clone(&self) -> (r: Self)
        ensures
            r == *self,
    {
        GitHubUser {
            login: self.login.clone(),
            avatar_url: self.avatar_url.clone(),
        }
    }
}

/// A repository as the GitHub API describes it.
#[derive(Debug, PartialEq)]
pub struct GitHubRepo {
    pub id: u64,
    pub name: String,
    pub full_name: String,
    pub description: Option<String>,
    pub stargazers_count: u64,
    pub forks_count: u64,
    pub open_issues_count: u64,
    pub language: Option<String>,
}

impl Clone for GitHubRepo {
    fn clone(&self) -> (r: Self)
        ensures
            r == *self,
    {
        GitHubRepo {
            id: self.id,
            name: self.name.clone(),
            full_name: self.full_name.clone(),
            description: clone_opt_text(&self.description),
            stargazers_count: self.stargazers_count,
            forks_count: self.forks_count,
            open_issues_count: self.open_issues_count,
            language: clone_opt_text(&self.language),
        }
    }
}

/// A pull request as the GitHub list endpoint describes it.
#[derive(Debug, PartialEq)]
pub struct GitHubPR {
    pub id: u64,
    pub number: u64,
    pub title: String,
    pub state: String,
    pub user: GitHubUser,
    pub comments: Option<u64>,
    pub created_at: String,
    pub merged_at: Option<String>,
}

impl Clone for GitHubPR {
    fn clone(&self) -> (r: Self)
        ensures
            r == *self,
    {
        GitHubPR {
            id: self.id,
            number: self.number,
            title: self.title.clone(),
            state: self.state.clone(),
            user: self.user.clone(),
            comments: self.comments,
            created_at: self.created_at.clone(),
            merged_at: clone_opt_text(&self.merged_at),
        }
    }
}

/// The details of one pull request.
#[derive(Debug, PartialEq)]
pub struct GitHubPRDetail {
    pub additions: u64,
    pub deletions: u64,
    pub changed_files: u64,
    pub comments: u64,
    pub merged_at: Option<String>,
    pub state: String,
}

impl Clone for GitHubPRDetail {
    fn clone(&self) -> (r: Self)
        ensures
            r == *self,
    {
        GitHubPRDetail {
            additions: self.additions,
            deletions: self.deletions,
            changed_files: self.changed_files,
            comments: self.comments,
            merged_at: clone_opt_text(&self.merged_at),
            state: self.state.clone(),
        }
    }
}

/// An issue as the GitHub list endpoint describes it; the endpoint also lists pull requests, marked by `is_pull_request`.
#[derive(Debug, PartialEq)]
pub struct GitHubIssue {
    pub id: u64,
    pub number: u64,
    pub title: String,
    pub state: String,
    pub user: GitHubUser,
    pub comments: u64,
    pub created_at: String,
    pub closed_at: Option<String>,
    pub is_pull_request: bool,
}

impl Clone for GitHubIssue {
    fn clone(&self) -> (r: Self)
        ensures
            r == *self,
    {
        GitHubIssue {
            id: self.id,
            number: self.number,
            title: self.title.clone(),
            state: self.state.clone(),
            user: self.user.clone(),
            comments: self.comments,
            created_at: self.created_at.clone(),
            closed_at: clone_opt_text(&self.closed_at),
            is_pull_request: self.is_pull_request,
        }
    }
}

/// A comment as the GitHub API describes it.
#[derive(Debug, PartialEq)]
pub struct GitHubComment {
    pub id: u64,
    pub body: String,
    pub user: GitHubUser,
    pub created_at: String,
}

impl Clone for GitHubComment {
    fn clone(&self) -> (r: Self)
        ensures
            r == *self,
    {
        GitHubComment {
            id: self.id,
            body: self.body.clone(),
            user: self.user.clone(),
            created_at: self.created_at.clone(),
        }
    }
}

} // verus!
