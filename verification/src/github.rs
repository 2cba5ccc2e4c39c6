//! The addresses of the GitHub API requests that synchronisation makes.
use vstd::prelude::*;
use crate::text::{dec_digits, to_decimal};

verus! {

/// The GitHub API as the platform addresses it.
#[derive(Debug, PartialEq)]
pub struct GitHubClient {
    pub base_url: String,
}

/// The query text that limits a listing to what changed since a time.
pub open spec fn since_suffix(since: Option<Seq<char>>) -> Seq<char> {
    match since {
        Some(s) => "&since="@ + s,
        None => Seq::empty(),
    }
}

/// The view of an optional text.
pub open spec fn opt_view(o: Option<&str>) -> Option<Seq<char>> {
    match o {
        Some(s) => Some(s@),
        None => None,
    }
}

/// Appends the `since` filter where one is given.
fn push_since(url: &mut String, since: Option<&str>)
    ensures
        final(url)@ == old(url)@ + since_suffix(opt_view(since)),
{
    match since {
        Some(s) => {
            url.append("&since=");
            url.append(s);
        },
        None => {
            assert(old(url)@ + Seq::<char>::empty() =~= old(url)@);
        },
    }
}

impl GitHubClient {
    /// A client for the API at `base_url`.
    pub fn new(base_url: &str) -> (c: Self)
        ensures
            c.base_url@ == base_url@,
    {
        GitHubClient { base_url: String::from_str(base_url) }
    }

    /// `{base}/users/{username}`.
    pub fn user_info_url(&self, username: &str) -> (u: String)
        ensures
            u@ == self.base_url@ + "/users/"@ + username@,
    {
        let mut u = self.base_url.clone();
        u.append("/users/");
        u.append(username);
        u
    }

    /// `{base}/repos/{owner}/{repo}`.
    pub fn repo_info_url(&self, owner: &str, repo: &str) -> (u: String)
        ensures
            u@ == self.base_url@ + "/repos/"@ + owner@ + "/"@ + repo@,
    {
        let mut u = self.base_url.clone();
        u.append("/repos/");
        u.append(owner);
        u.append("/");
        u.append(repo);
        u
    }

    /// `{base}/repos/{owner}/{repo}/pulls?state=all&sort=updated&direction=desc&per_page=100&page={page}`,
    /// then `&since={since}` where given.
    pub fn pull_requests_url(&self, owner: &str, repo: &str, since: Option<&str>, page: u32) -> (u: String)
        ensures
            u@ == self.base_url@ + "/repos/"@ + owner@ + "/"@ + repo@
                + "/pulls?state=all&sort=updated&direction=desc&per_page=100&page="@ + dec_digits(page as nat)
                + since_suffix(opt_view(since)),
    {
        let mut u = self.repo_info_url(owner, repo);
        u.append("/pulls?state=all&sort=updated&direction=desc&per_page=100&page=");
        let p = to_decimal(page as u128);
        u.append(p.as_str());
        push_since(&mut u, since);
        u
    }

    /// `{base}/repos/{owner}/{repo}/pulls/{number}`.
    pub fn pr_detail_url(&self, owner: &str, repo: &str, number: u64) -> (u: String)
        ensures
            u@ == self.base_url@ + "/repos/"@ + owner@ + "/"@ + repo@ + "/pulls/"@ + dec_digits(number as nat),
    {
        let mut u = self.repo_info_url(owner, repo);
        u.append("/pulls/");
        let n = to_decimal(number as u128);
        u.append(n.as_str());
        u
    }

    /// `{base}/repos/{owner}/{repo}/issues?state=all&sort=updated&direction=desc&per_page=100&page={page}`,
    /// then `&since={since}` where given.
    pub fn issues_url(&self, owner: &str, repo: &str, since: Option<&str>, page: u32) -> (u: String)
        ensures
            u@ == self.base_url@ + "/repos/"@ + owner@ + "/"@ + repo@
                + "/issues?state=all&sort=updated&direction=desc&per_page=100&page="@ + dec_digits(page as nat)
                + since_suffix(opt_view(since)),
    {
        let mut u = self.repo_info_url(owner, repo);
        u.append("/issues?state=all&sort=updated&direction=desc&per_page=100&page=");
        let p = to_decimal(page as u128);
        u.append(p.as_str());
        push_since(&mut u, since);
        u
    }

    /// `{base}/repos/{owner}/{repo}/issues/{number}/comments?per_page=100`,
    /// then `&since={since}` where given.
    pub fn issue_comments_url(&self, owner: &str, repo: &str, issue_number: u64, since: Option<&str>) -> (u: String)
        ensures
            u@ == self.base_url@ + "/repos/"@ + owner@ + "/"@ + repo@ + "/issues/"@ + dec_digits(issue_number as nat)
                + "/comments?per_page=100"@ + since_suffix(opt_view(since)),
    {
        let mut u = self.repo_info_url(owner, repo);
        u.append("/issues/");
        let n = to_decimal(issue_number as u128);
        u.append(n.as_str());
        u.append("/comments?per_page=100");
        push_since(&mut u, since);
        u
    }

    /// `{base}/repos/{owner}/{repo}/pulls/{number}/comments?per_page=100`,
    /// then `&since={since}` where given.
    pub fn pr_review_comments_url(&self, owner: &str, repo: &str, pr_number: u64, since: Option<&str>) -> (u: String)
        ensures
            u@ == self.base_url@ + "/repos/"@ + owner@ + "/"@ + repo@ + "/pulls/"@ + dec_digits(pr_number as nat)
                + "/comments?per_page=100"@ + since_suffix(opt_view(since)),
    {
        let mut u = self.repo_info_url(owner, repo);
        u.append("/pulls/");
        let n = to_decimal(pr_number as u128);
        u.append(n.as_str());
        u.append("/comments?per_page=100");
        push_since(&mut u, since);
        u
    }
}

} // verus!
