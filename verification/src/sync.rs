//! Synchronising one contributor's activity in one project from GitHub.
//!
//! The synchronisation alternates requests to GitHub, writes to the store and
//! pauses; its decisions are a state machine. The caller performs each
//! action that `start` and `step` hand out and feeds the outcome back as an
//! event, until the machine finishes with the number of items written or with
//! the error that stopped it.
//!
//! Only the contributor's own pull requests, issues (not pull requests listed
//! as issues) and comments are written, each tagged with the contributor and
//! the project. A failure to list pull requests or issues, to read a pull
//! request's details or to write a record stops the synchronisation; a
//! failure to list comments or to read the contributor's profile is skipped.
use vstd::prelude::*;
use vstd::utf8::encode_utf8;
use crate::github_types::{GitHubComment, GitHubIssue, GitHubPR, GitHubPRDetail, GitHubRepo, GitHubUser};
use crate::models::{clone_opt_text, Comment, Issue, Project, PullRequest, User};
use crate::text::text_eq;

verus! {

/// Where a synchronisation stands.
#[derive(Debug, PartialEq, Eq, Clone, Copy, Structural)]
pub enum SyncStage {
    ListingPullRequests,
    FetchingDetail,
    WritingPullRequest,
    ListingReviewComments,
    WritingReviewComment,
    PausingAfterPullRequest,
    ListingIssues,
    WritingIssue,
    ListingIssueComments,
    WritingIssueComment,
    PausingAfterIssue,
    FetchingProfile,
    WritingAvatar,
    Finished,
}

/// The outcome of an action, fed back to the machine.
#[derive(Debug, PartialEq)]
pub enum SyncEvent {
    /// The project's pull requests were listed, or the listing failed.
    PullRequests(Result<Vec<GitHubPR>, String>),
    /// A pull request's details were read, or the request failed.
    Detail(Result<GitHubPRDetail, String>),
    /// A record or the avatar was written, or the write failed.
    Written(Result<(), String>),
    /// Comments were listed, or the listing failed.
    Comments(Result<Vec<GitHubComment>, String>),
    /// The pause is over.
    Paused,
    /// The project's issues were listed, or the listing failed.
    Issues(Result<Vec<GitHubIssue>, String>),
    /// The contributor's GitHub profile was read, or the request failed.
    Profile(Result<GitHubUser, String>),
}

/// What the machine asks the caller to do next. Requests to GitHub use the
/// contributor's token, the project's owner and repository and the machine's
/// `since`.
#[derive(Debug, PartialEq)]
pub enum SyncAction {
    /// List the project's pull requests (first page).
    FetchPullRequests,
    /// Read the details of the pull request with this number.
    FetchPullRequestDetail { number: u64 },
    /// Store this pull request, replacing the stored one with its GitHub id.
    WritePullRequest(PullRequest),
    /// List the review comments of the pull request with this number.
    FetchReviewComments { number: u64 },
    /// Store this comment, replacing the stored one with its GitHub id.
    WriteComment(Comment),
    /// Wait a moment before the next item.
    Pause,
    /// List the project's issues (first page).
    FetchIssues,
    /// Store this issue, replacing the stored one with its GitHub id.
    WriteIssue(Issue),
    /// List the comments of the issue with this number.
    FetchIssueComments { number: u64 },
    /// Read the contributor's GitHub profile.
    FetchProfile,
    /// Store this avatar address for the contributor.
    WriteAvatar(String),
    /// The synchronisation is over: the number of items written, or the error
    /// that stopped it.
    Finish(Result<u64, String>),
}

/// The synchronisation of one contributor in one project.
pub struct UserProjectSync {
    pub user: User,
    pub project: Project,
    pub since: Option<String>,
    pub stage: SyncStage,
    pub count: u64,
    pub prs: Vec<GitHubPR>,
    pub pr_pos: usize,
    pub comments: Vec<GitHubComment>,
    pub comment_pos: usize,
    pub issues: Vec<GitHubIssue>,
    pub issue_pos: usize,
}

/// Whether a pull request was opened by the account with this login.
pub open spec fn authored_pr(login: Seq<char>) -> spec_fn(GitHubPR) -> bool {
    |pr: GitHubPR| pr.user.login@ == login
}

/// Whether a comment was written by the account with this login.
pub open spec fn authored_comment(login: Seq<char>) -> spec_fn(GitHubComment) -> bool {
    |c: GitHubComment| c.user.login@ == login
}

/// Whether an issue listing entry is an issue (not a pull request) opened by
/// the account with this login.
pub open spec fn own_issue(login: Seq<char>) -> spec_fn(GitHubIssue) -> bool {
    |i: GitHubIssue| !i.is_pull_request && i.user.login@ == login
}

/// The first position at or after `from` whose entry satisfies `pred`, or
/// the length where none does.
pub open spec fn next_index<T>(s: Seq<T>, from: int, pred: spec_fn(T) -> bool) -> int
    decreases s.len() - from,
{
    if from >= s.len() {
        s.len() as int
    } else if pred(s[from]) {
        from
    } else {
        next_index(s, from + 1, pred)
    }
}

/// The position `next_index` finds lies in `[from, len]` and, below the
/// length, holds an entry that satisfies `pred`; none before it from `from` does.
pub proof fn lemma_next_index<T>(s: Seq<T>, from: int, pred: spec_fn(T) -> bool)
    requires
        0 <= from <= s.len(),
    ensures
        from <= next_index(s, from, pred) <= s.len(),
        next_index(s, from, pred) < s.len() ==> pred(s[next_index(s, from, pred)]),
        forall|k: int| from <= k < next_index(s, from, pred) ==> !pred(#[trigger] s[k]),
    decreases s.len() - from,
{
    if from < s.len() && !pred(s[from]) {
        lemma_next_index(s, from + 1, pred);
    }
}

/// `m` is the stored form of a pull request of a contributor in a project.
pub open spec fn is_pr_model(m: PullRequest, pr: GitHubPR, d: GitHubPRDetail, user_id: i64, project_id: i64) -> bool {
    &&& m.id == 0
    &&& m.github_id == pr.id as i64
    &&& m.project_id == project_id
    &&& m.user_id == user_id
    &&& m.title == pr.title
    &&& m.state@ == (if d.merged_at is Some { "merged"@ } else { d.state@ })
    &&& m.additions == d.additions as i64
    &&& m.deletions == d.deletions as i64
    &&& m.changed_files == d.changed_files as i64
    &&& m.comments_count == d.comments as i64
    &&& m.created_at == pr.created_at
    &&& m.merged_at == d.merged_at
}

/// `m` is the stored form of a contributor's comment in a project, on a pull
/// request (`pr`) or an issue (`issue`) with the given GitHub id.
pub open spec fn is_comment_model(
    m: Comment,
    c: GitHubComment,
    target_type: Seq<char>,
    target_id: u64,
    user_id: i64,
    project_id: i64,
) -> bool {
    &&& m.id == 0
    &&& m.github_id == c.id as i64
    &&& m.user_id == user_id
    &&& m.project_id == project_id
    &&& m.target_type@ == target_type
    &&& m.target_id == target_id as i64
    &&& m.body_length == (encode_utf8(c.body@).len() as usize) as i64
    &&& m.created_at == c.created_at
}

/// `m` is the stored form of a contributor's issue in a project.
pub open spec fn is_issue_model(m: Issue, i: GitHubIssue, user_id: i64, project_id: i64) -> bool {
    &&& m.id == 0
    &&& m.github_id == i.id as i64
    &&& m.project_id == project_id
    &&& m.user_id == user_id
    &&& m.title == i.title
    &&& m.state == i.state
    &&& m.comments_count == i.comments as i64
    &&& m.created_at == i.created_at
    &&& m.closed_at == i.closed_at
}

/// The stored form of a pull request.
pub fn pr_model(pr: &GitHubPR, d: &GitHubPRDetail, user_id: i64, project_id: i64) -> (m: PullRequest)
    ensures
        is_pr_model(m, *pr, *d, user_id, project_id),
{
    let state = if d.merged_at.is_some() {
        String::from_str("merged")
    } else {
        d.state.clone()
    };
    PullRequest {
        id: 0,
        github_id: #[verifier::truncate] (pr.id as i64),
        project_id,
        user_id,
        title: pr.title.clone(),
        state,
        additions: #[verifier::truncate] (d.additions as i64),
        deletions: #[verifier::truncate] (d.deletions as i64),
        changed_files: #[verifier::truncate] (d.changed_files as i64),
        comments_count: #[verifier::truncate] (d.comments as i64),
        created_at: pr.created_at.clone(),
        merged_at: clone_opt_text(&d.merged_at),
    }
}

/// The stored form of a comment on a pull request (`on_pr`) or an issue.
pub fn comment_model(c: &GitHubComment, on_pr: bool, target_id: u64, user_id: i64, project_id: i64) -> (m: Comment)
    ensures
        is_comment_model(m, *c, if on_pr { "pr"@ } else { "issue"@ }, target_id, user_id, project_id),
{
    let target_type = if on_pr {
        String::from_str("pr")
    } else {
        String::from_str("issue")
    };
    let bytes = c.body.as_str().len();
    Comment {
        id: 0,
        github_id: #[verifier::truncate] (c.id as i64),
        user_id,
        project_id,
        target_type,
        target_id: #[verifier::truncate] (target_id as i64),
        body_length: #[verifier::truncate] (bytes as i64),
        created_at: c.created_at.clone(),
    }
}

/// The stored form of an issue.
pub fn issue_model(i: &GitHubIssue, user_id: i64, project_id: i64) -> (m: Issue)
    ensures
        is_issue_model(m, *i, user_id, project_id),
{
    Issue {
        id: 0,
        github_id: #[verifier::truncate] (i.id as i64),
        project_id,
        user_id,
        title: i.title.clone(),
        state: i.state.clone(),
        comments_count: #[verifier::truncate] (i.comments as i64),
        created_at: i.created_at.clone(),
        closed_at: clone_opt_text(&i.closed_at),
    }
}

fn next_authored_pr(prs: &Vec<GitHubPR>, from: usize, login: &str) -> (r: usize)
    requires
        from <= prs.len(),
    ensures
        r == next_index(prs@, from as int, authored_pr(login@)),
        r <= prs.len(),
{
    let mut k = from;
    while k < prs.len() && !text_eq(prs[k].user.login.as_str(), login)
        invariant
            from <= k <= prs.len(),
            next_index(prs@, from as int, authored_pr(login@)) == next_index(prs@, k as int, authored_pr(login@)),
        decreases prs.len() - k,
    {
        k = k + 1;
    }
    k
}

fn next_authored_comment(cs: &Vec<GitHubComment>, from: usize, login: &str) -> (r: usize)
    requires
        from <= cs.len(),
    ensures
        r == next_index(cs@, from as int, authored_comment(login@)),
        r <= cs.len(),
{
    let mut k = from;
    while k < cs.len() && !text_eq(cs[k].user.login.as_str(), login)
        invariant
            from <= k <= cs.len(),
            next_index(cs@, from as int, authored_comment(login@)) == next_index(cs@, k as int, authored_comment(login@)),
        decreases cs.len() - k,
    {
        k = k + 1;
    }
    k
}

fn next_own_issue(issues: &Vec<GitHubIssue>, from: usize, login: &str) -> (r: usize)
    requires
        from <= issues.len(),
    ensures
        r == next_index(issues@, from as int, own_issue(login@)),
        r <= issues.len(),
{
    let mut k = from;
    while k < issues.len() && (issues[k].is_pull_request || !text_eq(issues[k].user.login.as_str(), login))
        invariant
            from <= k <= issues.len(),
            next_index(issues@, from as int, own_issue(login@)) == next_index(issues@, k as int, own_issue(login@)),
        decreases issues.len() - k,
    {
        k = k + 1;
    }
    k
}

/// Whether a stage works on the pull request at `pr_pos`.
pub open spec fn on_pull_request(stage: SyncStage) -> bool {
    ||| stage == SyncStage::FetchingDetail
    ||| stage == SyncStage::WritingPullRequest
    ||| stage == SyncStage::ListingReviewComments
    ||| stage == SyncStage::WritingReviewComment
    ||| stage == SyncStage::PausingAfterPullRequest
}

/// Whether a stage works on the issue at `issue_pos`.
pub open spec fn on_issue(stage: SyncStage) -> bool {
    ||| stage == SyncStage::WritingIssue
    ||| stage == SyncStage::ListingIssueComments
    ||| stage == SyncStage::WritingIssueComment
    ||| stage == SyncStage::PausingAfterIssue
}

/// Whether a stage writes a record that counts as an item.
pub open spec fn writes_item(stage: SyncStage) -> bool {
    ||| stage == SyncStage::WritingPullRequest
    ||| stage == SyncStage::WritingReviewComment
    ||| stage == SyncStage::WritingIssue
    ||| stage == SyncStage::WritingIssueComment
}

/// Whether a stage awaits the outcome of an event of this kind.
pub open spec fn accepts(stage: SyncStage, e: SyncEvent) -> bool {
    match e {
        SyncEvent::PullRequests(_) => stage == SyncStage::ListingPullRequests,
        SyncEvent::Detail(_) => stage == SyncStage::FetchingDetail,
        SyncEvent::Written(_) => writes_item(stage) || stage == SyncStage::WritingAvatar,
        SyncEvent::Comments(_) => stage == SyncStage::ListingReviewComments || stage == SyncStage::ListingIssueComments,
        SyncEvent::Paused => stage == SyncStage::PausingAfterPullRequest || stage == SyncStage::PausingAfterIssue,
        SyncEvent::Issues(_) => stage == SyncStage::ListingIssues,
        SyncEvent::Profile(_) => stage == SyncStage::FetchingProfile,
    }
}

impl UserProjectSync {
    /// The positions the machine holds point at the items it works on.
    pub open spec fn wf(&self) -> bool {
        let login = self.user.github_username@;
        &&& on_pull_request(self.stage) ==> self.pr_pos < self.prs.len() && authored_pr(login)(
            self.prs@[self.pr_pos as int],
        )
        &&& on_issue(self.stage) ==> self.issue_pos < self.issues.len() && own_issue(login)(
            self.issues@[self.issue_pos as int],
        )
        &&& (self.stage == SyncStage::WritingReviewComment || self.stage == SyncStage::WritingIssueComment)
            ==> self.comment_pos < self.comments.len() && authored_comment(login)(
            self.comments@[self.comment_pos as int],
        )
    }

    /// The login of the contributor.
    pub open spec fn login(&self) -> Seq<char> {
        self.user.github_username@
    }

    /// The machine `t` answers the comments at and after `from` of the current
    /// item (`on_pr`: the pull request, else the issue): it writes the first
    /// one by the contributor, or pauses where there is none.
    pub open spec fn comment_or_pause(t: Self, a: SyncAction, from: int, on_pr: bool) -> bool {
        let c = next_index(t.comments@, from, authored_comment(t.login()));
        let target = if on_pr { t.prs@[t.pr_pos as int].id } else { t.issues@[t.issue_pos as int].id };
        if c < t.comments.len() {
            &&& t.stage == (if on_pr { SyncStage::WritingReviewComment } else { SyncStage::WritingIssueComment })
            &&& t.comment_pos == c
            &&& a matches SyncAction::WriteComment(m) && is_comment_model(
                m,
                t.comments@[c],
                if on_pr { "pr"@ } else { "issue"@ },
                target,
                t.user.id,
                t.project.id,
            )
        } else {
            &&& t.stage == (if on_pr { SyncStage::PausingAfterPullRequest } else { SyncStage::PausingAfterIssue })
            &&& t.comment_pos == c
            &&& a == SyncAction::Pause
        }
    }

    /// The machine `t` moves on to the pull requests at and after `from`: it
    /// reads the details of the first one by the contributor, or lists the
    /// issues where there is none.
    pub open spec fn pr_or_issues(t: Self, a: SyncAction, from: int) -> bool {
        let p = next_index(t.prs@, from, authored_pr(t.login()));
        &&& t.pr_pos == p
        &&& if p < t.prs.len() {
            t.stage == SyncStage::FetchingDetail && a == SyncAction::FetchPullRequestDetail {
                number: t.prs@[p].number,
            }
        } else {
            t.stage == SyncStage::ListingIssues && a == SyncAction::FetchIssues
        }
    }

    /// The machine `t` moves on to the issues at and after `from`: it writes
    /// the first one by the contributor, or reads the profile where there is
    /// none.
    pub open spec fn issue_or_profile(t: Self, a: SyncAction, from: int) -> bool {
        let q = next_index(t.issues@, from, own_issue(t.login()));
        &&& t.issue_pos == q
        &&& if q < t.issues.len() {
            t.stage == SyncStage::WritingIssue && (a matches SyncAction::WriteIssue(m) && is_issue_model(
                m,
                t.issues@[q],
                t.user.id,
                t.project.id,
            ))
        } else {
            t.stage == SyncStage::FetchingProfile && a == SyncAction::FetchProfile
        }
    }

    /// The machine stops with this outcome.
    pub open spec fn finishes(t: Self, a: SyncAction, outcome: Result<u64, String>) -> bool {
        t.stage == SyncStage::Finished && a == SyncAction::Finish(outcome)
    }

    /// One step of the synchronisation: the machine `s`, given the outcome
    /// `e` of the action it asked for, becomes `t` and asks for `a`.
    pub open spec fn steps_to(s: Self, e: SyncEvent, t: Self, a: SyncAction) -> bool {
        &&& t.user == s.user
        &&& t.project == s.project
        &&& t.since == s.since
        &&& t.count == (if writes_item(s.stage) && (e matches SyncEvent::Written(Ok(_))) {
            s.count + 1
        } else {
            s.count as int
        })
        &&& match e {
            SyncEvent::PullRequests(Ok(list)) => t.prs == list && Self::pr_or_issues(t, a, 0),
            SyncEvent::PullRequests(Err(m)) => Self::finishes(t, a, Err(m)),
            SyncEvent::Detail(Ok(d)) => {
                &&& t.prs == s.prs
                &&& t.pr_pos == s.pr_pos
                &&& t.stage == SyncStage::WritingPullRequest
                &&& a matches SyncAction::WritePullRequest(m) && is_pr_model(
                    m,
                    s.prs@[s.pr_pos as int],
                    d,
                    s.user.id,
                    s.project.id,
                )
            },
            SyncEvent::Detail(Err(m)) => Self::finishes(t, a, Err(m)),
            SyncEvent::Written(Err(m)) => if s.stage == SyncStage::WritingAvatar {
                Self::finishes(t, a, Ok(s.count))
            } else {
                Self::finishes(t, a, Err(m))
            },
            SyncEvent::Written(Ok(())) => match s.stage {
                SyncStage::WritingPullRequest => {
                    &&& t.prs == s.prs
                    &&& t.pr_pos == s.pr_pos
                    &&& t.stage == SyncStage::ListingReviewComments
                    &&& a == SyncAction::FetchReviewComments { number: s.prs@[s.pr_pos as int].number }
                },
                SyncStage::WritingReviewComment => {
                    &&& t.prs == s.prs
                    &&& t.pr_pos == s.pr_pos
                    &&& t.comments == s.comments
                    &&& Self::comment_or_pause(t, a, s.comment_pos + 1, true)
                },
                SyncStage::WritingIssue => {
                    &&& t.issues == s.issues
                    &&& t.issue_pos == s.issue_pos
                    &&& if s.issues@[s.issue_pos as int].comments > 0 {
                        t.stage == SyncStage::ListingIssueComments && a == SyncAction::FetchIssueComments {
                            number: s.issues@[s.issue_pos as int].number,
                        }
                    } else {
                        t.stage == SyncStage::PausingAfterIssue && a == SyncAction::Pause
                    }
                },
                SyncStage::WritingIssueComment => {
                    &&& t.issues == s.issues
                    &&& t.issue_pos == s.issue_pos
                    &&& t.comments == s.comments
                    &&& Self::comment_or_pause(t, a, s.comment_pos + 1, false)
                },
                _ => Self::finishes(t, a, Ok(s.count)),
            },
            SyncEvent::Comments(listed) => {
                let on_pr = s.stage == SyncStage::ListingReviewComments;
                &&& t.prs == s.prs
                &&& t.pr_pos == s.pr_pos
                &&& t.issues == s.issues
                &&& t.issue_pos == s.issue_pos
                &&& match listed {
                    Ok(cs) => t.comments == cs && Self::comment_or_pause(t, a, 0, on_pr),
                    Err(_) => {
                        &&& t.stage == (if on_pr { SyncStage::PausingAfterPullRequest } else { SyncStage::PausingAfterIssue })
                        &&& a == SyncAction::Pause
                    },
                }
            },
            SyncEvent::Paused => if s.stage == SyncStage::PausingAfterPullRequest {
                t.prs == s.prs && Self::pr_or_issues(t, a, s.pr_pos + 1)
            } else {
                t.issues == s.issues && Self::issue_or_profile(t, a, s.issue_pos + 1)
            },
            SyncEvent::Issues(Ok(list)) => t.issues == list && Self::issue_or_profile(t, a, 0),
            SyncEvent::Issues(Err(m)) => Self::finishes(t, a, Err(m)),
            SyncEvent::Profile(Ok(u)) => t.stage == SyncStage::WritingAvatar && a == SyncAction::WriteAvatar(u.avatar_url),
            SyncEvent::Profile(Err(_)) => Self::finishes(t, a, Ok(s.count)),
        }
    }

    /// Starts the synchronisation of a contributor in a project, counting
    /// only what changed since `since` where it is given: the machine asks
    /// for the project's pull requests.
    pub fn start(user: User, project: Project, since: Option<String>) -> (r: (Self, SyncAction))
        ensures
            r.0.wf(),
            r.0.user == user,
            r.0.project == project,
            r.0.since == since,
            r.0.stage == SyncStage::ListingPullRequests,
            r.0.count == 0,
            r.1 == SyncAction::FetchPullRequests,
    {
        (
            UserProjectSync {
                user,
                project,
                since,
                stage: SyncStage::ListingPullRequests,
                count: 0,
                prs: Vec::new(),
                pr_pos: 0,
                comments: Vec::new(),
                comment_pos: 0,
                issues: Vec::new(),
                issue_pos: 0,
            },
            SyncAction::FetchPullRequests,
        )
    }

    /// Whether the machine awaits an event of this kind.
    pub fn awaits(&self, e: &SyncEvent) -> (r: bool)
        ensures
            r == accepts(self.stage, *e),
    {
        let st = self.stage;
        match e {
            SyncEvent::PullRequests(_) => st == SyncStage::ListingPullRequests,
            SyncEvent::Detail(_) => st == SyncStage::FetchingDetail,
            SyncEvent::Written(_) => st == SyncStage::WritingPullRequest || st == SyncStage::WritingReviewComment
                || st == SyncStage::WritingIssue || st == SyncStage::WritingIssueComment
                || st == SyncStage::WritingAvatar,
            SyncEvent::Comments(_) => st == SyncStage::ListingReviewComments || st == SyncStage::ListingIssueComments,
            SyncEvent::Paused => st == SyncStage::PausingAfterPullRequest || st == SyncStage::PausingAfterIssue,
            SyncEvent::Issues(_) => st == SyncStage::ListingIssues,
            SyncEvent::Profile(_) => st == SyncStage::FetchingProfile,
        }
    }

    fn comment_step(&mut self, from: usize, on_pr: bool) -> (a: SyncAction)
        requires
            from <= old(self).comments.len(),
            on_pr ==> old(self).pr_pos < old(self).prs.len() && authored_pr(old(self).login())(
                old(self).prs@[old(self).pr_pos as int],
            ),
            !on_pr ==> old(self).issue_pos < old(self).issues.len() && own_issue(old(self).login())(
                old(self).issues@[old(self).issue_pos as int],
            ),
        ensures
            final(self).wf(),
            Self::comment_or_pause(*final(self), a, from as int, on_pr),
            final(self).user == old(self).user,
            final(self).project == old(self).project,
            final(self).since == old(self).since,
            final(self).count == old(self).count,
            final(self).prs == old(self).prs,
            final(self).pr_pos == old(self).pr_pos,
            final(self).issues == old(self).issues,
            final(self).issue_pos == old(self).issue_pos,
            final(self).comments == old(self).comments,
    {
        let c = next_authored_comment(&self.comments, from, self.user.github_username.as_str());
        proof {
            lemma_next_index(self.comments@, from as int, authored_comment(self.user.github_username@));
        }
        self.comment_pos = c;
        if c < self.comments.len() {
            let target = if on_pr { self.prs[self.pr_pos].id } else { self.issues[self.issue_pos].id };
            self.stage = if on_pr { SyncStage::WritingReviewComment } else { SyncStage::WritingIssueComment };
            SyncAction::WriteComment(comment_model(&self.comments[c], on_pr, target, self.user.id, self.project.id))
        } else {
            self.stage = if on_pr { SyncStage::PausingAfterPullRequest } else { SyncStage::PausingAfterIssue };
            SyncAction::Pause
        }
    }

    fn pr_step(&mut self, from: usize) -> (a: SyncAction)
        requires
            from <= old(self).prs.len(),
        ensures
            final(self).wf(),
            Self::pr_or_issues(*final(self), a, from as int),
            final(self).user == old(self).user,
            final(self).project == old(self).project,
            final(self).since == old(self).since,
            final(self).count == old(self).count,
            final(self).prs == old(self).prs,
    {
        let p = next_authored_pr(&self.prs, from, self.user.github_username.as_str());
        proof {
            lemma_next_index(self.prs@, from as int, authored_pr(self.user.github_username@));
        }
        self.pr_pos = p;
        if p < self.prs.len() {
            self.stage = SyncStage::FetchingDetail;
            SyncAction::FetchPullRequestDetail { number: self.prs[p].number }
        } else {
            self.stage = SyncStage::ListingIssues;
            SyncAction::FetchIssues
        }
    }

    fn issue_step(&mut self, from: usize) -> (a: SyncAction)
        requires
            from <= old(self).issues.len(),
        ensures
            final(self).wf(),
            Self::issue_or_profile(*final(self), a, from as int),
            final(self).user == old(self).user,
            final(self).project == old(self).project,
            final(self).since == old(self).since,
            final(self).count == old(self).count,
            final(self).issues == old(self).issues,
    {
        let q = next_own_issue(&self.issues, from, self.user.github_username.as_str());
        proof {
            lemma_next_index(self.issues@, from as int, own_issue(self.user.github_username@));
        }
        self.issue_pos = q;
        if q < self.issues.len() {
            self.stage = SyncStage::WritingIssue;
            SyncAction::WriteIssue(issue_model(&self.issues[q], self.user.id, self.project.id))
        } else {
            self.stage = SyncStage::FetchingProfile;
            SyncAction::FetchProfile
        }
    }

    fn finish(&mut self, outcome: Result<u64, String>) -> (a: SyncAction)
        ensures
            Self::finishes(*final(self), a, outcome),
            final(self).wf(),
            final(self).user == old(self).user,
            final(self).project == old(self).project,
            final(self).since == old(self).since,
            final(self).count == old(self).count,
    {
        self.stage = SyncStage::Finished;
        SyncAction::Finish(outcome)
    }

    /// Feeds the outcome of the last action to the machine and returns the
    /// next action.
    pub fn step(&mut self, e: SyncEvent) -> (a: SyncAction)
        requires
            old(self).wf(),
            accepts(old(self).stage, e),
            old(self).count < u64::MAX,
        ensures
            final(self).wf(),
            Self::steps_to(*old(self), e, *final(self), a),
    {
        match e {
            SyncEvent::PullRequests(Ok(list)) => {
                self.prs = list;
                self.pr_step(0)
            },
            SyncEvent::PullRequests(Err(m)) => self.finish(Err(m)),
            SyncEvent::Detail(Ok(d)) => {
                self.stage = SyncStage::WritingPullRequest;
                SyncAction::WritePullRequest(pr_model(&self.prs[self.pr_pos], &d, self.user.id, self.project.id))
            },
            SyncEvent::Detail(Err(m)) => self.finish(Err(m)),
            SyncEvent::Written(Err(m)) => {
                if self.stage == SyncStage::WritingAvatar {
                    let n = self.count;
                    self.finish(Ok(n))
                } else {
                    self.finish(Err(m))
                }
            },
            SyncEvent::Written(Ok(())) => {
                if self.stage == SyncStage::WritingPullRequest {
                    self.count = self.count + 1;
                    self.stage = SyncStage::ListingReviewComments;
                    SyncAction::FetchReviewComments { number: self.prs[self.pr_pos].number }
                } else if self.stage == SyncStage::WritingReviewComment {
                    self.count = self.count + 1;
                    let from = self.comment_pos + 1;
                    self.comment_step(from, true)
                } else if self.stage == SyncStage::WritingIssue {
                    self.count = self.count + 1;
                    if self.issues[self.issue_pos].comments > 0 {
                        self.stage = SyncStage::ListingIssueComments;
                        SyncAction::FetchIssueComments { number: self.issues[self.issue_pos].number }
                    } else {
                        self.stage = SyncStage::PausingAfterIssue;
                        SyncAction::Pause
                    }
                } else if self.stage == SyncStage::WritingIssueComment {
                    self.count = self.count + 1;
                    let from = self.comment_pos + 1;
                    self.comment_step(from, false)
                } else {
                    let n = self.count;
                    self.finish(Ok(n))
                }
            },
            SyncEvent::Comments(listed) => {
                let on_pr = self.stage == SyncStage::ListingReviewComments;
                match listed {
                    Ok(cs) => {
                        self.comments = cs;
                        self.comment_step(0, on_pr)
                    },
                    Err(_) => {
                        self.stage = if on_pr { SyncStage::PausingAfterPullRequest } else { SyncStage::PausingAfterIssue };
                        SyncAction::Pause
                    },
                }
            },
            SyncEvent::Paused => {
                if self.stage == SyncStage::PausingAfterPullRequest {
                    let from = self.pr_pos + 1;
                    self.pr_step(from)
                } else {
                    let from = self.issue_pos + 1;
                    self.issue_step(from)
                }
            },
            SyncEvent::Issues(Ok(list)) => {
                self.issues = list;
                self.issue_step(0)
            },
            SyncEvent::Issues(Err(m)) => self.finish(Err(m)),
            SyncEvent::Profile(Ok(u)) => {
                self.stage = SyncStage::WritingAvatar;
                SyncAction::WriteAvatar(u.avatar_url)
            },
            SyncEvent::Profile(Err(_)) => {
                let n = self.count;
                self.finish(Ok(n))
            },
        }
    }
}

/// Every record that a step asks to write belongs to the contributor and the
/// project being synchronised.
pub proof fn lemma_writes_are_tagged(s: UserProjectSync, e: SyncEvent, t: UserProjectSync, a: SyncAction)
    requires
        UserProjectSync::steps_to(s, e, t, a),
    ensures
        a matches SyncAction::WritePullRequest(m) ==> m.user_id == s.user.id && m.project_id == s.project.id,
        a matches SyncAction::WriteComment(m) ==> m.user_id == s.user.id && m.project_id == s.project.id,
        a matches SyncAction::WriteIssue(m) ==> m.user_id == s.user.id && m.project_id == s.project.id,
{
}

/// Only the contributor's own items are written: a step asks for the details
/// of a pull request, or writes a comment or an issue, only where the item
/// was opened or written by the contributor (and the issue is not a pull
/// request), and the record written is that item.
pub proof fn lemma_writes_only_own(s: UserProjectSync, e: SyncEvent, t: UserProjectSync, a: SyncAction)
    requires
        s.wf(),
        t.wf(),
        accepts(s.stage, e),
        UserProjectSync::steps_to(s, e, t, a),
    ensures
        a matches SyncAction::FetchPullRequestDetail { number } ==> t.pr_pos < t.prs.len() && authored_pr(s.login())(
            t.prs@[t.pr_pos as int],
        ) && number == t.prs@[t.pr_pos as int].number,
        a matches SyncAction::WritePullRequest(m) ==> t.pr_pos < t.prs.len() && authored_pr(s.login())(
            t.prs@[t.pr_pos as int],
        ) && m.github_id == t.prs@[t.pr_pos as int].id as i64,
        a matches SyncAction::WriteComment(m) ==> t.comment_pos < t.comments.len() && authored_comment(s.login())(
            t.comments@[t.comment_pos as int],
        ) && m.github_id == t.comments@[t.comment_pos as int].id as i64,
        a matches SyncAction::WriteIssue(m) ==> t.issue_pos < t.issues.len() && own_issue(s.login())(
            t.issues@[t.issue_pos as int],
        ) && m.github_id == t.issues@[t.issue_pos as int].id as i64,
{
}

/// A comment is written with the kind and the GitHub id of the item it was
/// listed on: while the machine is on an issue, as an issue comment of that
/// issue; while on a pull request, as a pull-request comment of that pull
/// request.
pub proof fn lemma_comment_targets(s: UserProjectSync, e: SyncEvent, t: UserProjectSync, a: SyncAction)
    requires
        s.wf(),
        t.wf(),
        accepts(s.stage, e),
        UserProjectSync::steps_to(s, e, t, a),
    ensures
        a matches SyncAction::WriteComment(m) ==> {
            ||| {
                &&& t.stage == SyncStage::WritingIssueComment
                &&& m.target_type@ == "issue"@
                &&& t.issue_pos < t.issues.len()
                &&& m.target_id == t.issues@[t.issue_pos as int].id as i64
            }
            ||| {
                &&& t.stage == SyncStage::WritingReviewComment
                &&& m.target_type@ == "pr"@
                &&& t.pr_pos < t.prs.len()
                &&& m.target_id == t.prs@[t.pr_pos as int].id as i64
            }
        },
{
}

/// Only the contributor's own items are written, stated on the items' own
/// fields: the pull request whose details are read or that is written was
/// opened by the contributor's login; the comment written was written by
/// it; the issue written was opened by it and is not a pull request.
pub proof fn lemma_writes_own_logins(s: UserProjectSync, e: SyncEvent, t: UserProjectSync, a: SyncAction)
    requires
        s.wf(),
        t.wf(),
        accepts(s.stage, e),
        UserProjectSync::steps_to(s, e, t, a),
    ensures
        a is FetchPullRequestDetail ==> t.pr_pos < t.prs.len() && t.prs@[t.pr_pos as int].user.login@
            == s.user.github_username@,
        a is WritePullRequest ==> t.pr_pos < t.prs.len() && t.prs@[t.pr_pos as int].user.login@
            == s.user.github_username@,
        a is WriteComment ==> t.comment_pos < t.comments.len() && t.comments@[t.comment_pos as int].user.login@
            == s.user.github_username@,
        a is WriteIssue ==> t.issue_pos < t.issues.len() && t.issues@[t.issue_pos as int].user.login@
            == s.user.github_username@ && !t.issues@[t.issue_pos as int].is_pull_request,
{
    lemma_writes_only_own(s, e, t, a);
}

/// The number a synchronisation reports when it succeeds is its count: the
/// number of item writes that succeeded. The count grows by one exactly when
/// the write of a pull request, issue or comment succeeds.
pub proof fn lemma_finish_reports_count(s: UserProjectSync, e: SyncEvent, t: UserProjectSync, a: SyncAction)
    requires
        accepts(s.stage, e),
        UserProjectSync::steps_to(s, e, t, a),
    ensures
        a matches SyncAction::Finish(Ok(n)) ==> n == t.count,
        t.count == s.count + (if writes_item(s.stage) && (e matches SyncEvent::Written(Ok(_))) { 1int } else { 0int }),
{
}

/// A step stops the synchronisation with an error only with the error that
/// the event carried.
pub proof fn lemma_errors_come_from_events(s: UserProjectSync, e: SyncEvent, t: UserProjectSync, a: SyncAction)
    requires
        accepts(s.stage, e),
        UserProjectSync::steps_to(s, e, t, a),
    ensures
        a matches SyncAction::Finish(Err(m)) ==> {
            ||| e == SyncEvent::PullRequests(Err(m))
            ||| e == SyncEvent::Detail(Err(m))
            ||| e == SyncEvent::Issues(Err(m))
            ||| (e == SyncEvent::Written(Err(m)) && writes_item(s.stage))
        },
{
}

/// How far a stage lies from the end: larger is further.
pub open spec fn stage_rank(stage: SyncStage) -> nat {
    match stage {
        SyncStage::Finished => 0,
        SyncStage::WritingAvatar => 1,
        SyncStage::FetchingProfile => 2,
        SyncStage::PausingAfterIssue => 3,
        SyncStage::WritingIssueComment => 3,
        SyncStage::ListingIssueComments => 3,
        SyncStage::WritingIssue => 3,
        SyncStage::ListingIssues => 4,
        SyncStage::PausingAfterPullRequest => 5,
        SyncStage::WritingReviewComment => 5,
        SyncStage::ListingReviewComments => 5,
        SyncStage::WritingPullRequest => 5,
        SyncStage::FetchingDetail => 5,
        SyncStage::ListingPullRequests => 6,
    }
}

/// How far a stage lies from the end of the work on its item.
pub open spec fn item_rank(stage: SyncStage) -> nat {
    match stage {
        SyncStage::FetchingDetail => 4,
        SyncStage::WritingPullRequest => 3,
        SyncStage::WritingIssue => 3,
        SyncStage::ListingReviewComments => 2,
        SyncStage::ListingIssueComments => 2,
        SyncStage::WritingReviewComment => 1,
        SyncStage::WritingIssueComment => 1,
        _ => 0,
    }
}

/// The work a synchronisation has left, as four counts compared in order:
/// the stage, the items left after the current one, the steps left on the
/// current item, and the comments left after the current one.
pub open spec fn progress(s: UserProjectSync) -> (nat, nat, nat, nat) {
    let items_left: nat = if on_pull_request(s.stage) {
        (s.prs.len() - s.pr_pos) as nat
    } else if on_issue(s.stage) {
        (s.issues.len() - s.issue_pos) as nat
    } else {
        0
    };
    let comments_left: nat = if s.stage == SyncStage::WritingReviewComment || s.stage == SyncStage::WritingIssueComment {
        (s.comments.len() - s.comment_pos) as nat
    } else {
        0
    };
    (stage_rank(s.stage), items_left, item_rank(s.stage), comments_left)
}

/// Lexicographic order of four counts.
pub open spec fn lex_less(a: (nat, nat, nat, nat), b: (nat, nat, nat, nat)) -> bool {
    ||| a.0 < b.0
    ||| (a.0 == b.0 && a.1 < b.1)
    ||| (a.0 == b.0 && a.1 == b.1 && a.2 < b.2)
    ||| (a.0 == b.0 && a.1 == b.1 && a.2 == b.2 && a.3 < b.3)
}

/// Every step of a synchronisation leaves strictly less work, in an order
/// with no infinite descent: whatever GitHub and the store answer, the
/// synchronisation finishes.
pub proof fn lemma_step_makes_progress(s: UserProjectSync, e: SyncEvent, t: UserProjectSync, a: SyncAction)
    requires
        s.wf(),
        t.wf(),
        accepts(s.stage, e),
        UserProjectSync::steps_to(s, e, t, a),
    ensures
        lex_less(progress(t), progress(s)),
{
    let login = s.login();
    match e {
        SyncEvent::Written(Ok(_)) => {
            if s.stage == SyncStage::WritingReviewComment || s.stage == SyncStage::WritingIssueComment {
                lemma_next_index(t.comments@, s.comment_pos + 1, authored_comment(login));
            }
        },
        SyncEvent::Paused => {
            if s.stage == SyncStage::PausingAfterPullRequest {
                lemma_next_index(t.prs@, s.pr_pos + 1, authored_pr(login));
            } else {
                lemma_next_index(t.issues@, s.issue_pos + 1, own_issue(login));
            }
        },
        _ => {},
    }
}

/// Where a full synchronisation stands.
#[derive(Debug, PartialEq, Eq, Clone, Copy, Structural)]
pub enum SyncAllStage {
    SyncingPair,
    LoggingPairError,
    PausingAfterPair,
    FetchingRepo,
    WritingStats,
    Recalculating,
    LoggingSuccess,
    Finished,
}

/// The outcome of an action of a full synchronisation.
#[derive(Debug, PartialEq)]
pub enum SyncAllEvent {
    /// The outcome of an action of the pair being synchronised.
    Pair(SyncEvent),
    /// A synchronisation record was written (its outcome is not looked at).
    Logged,
    /// The pause is over.
    Paused,
    /// A repository's description was read, or the request failed.
    Repo(Result<GitHubRepo, String>),
    /// A project's statistics were written (their outcome is not looked at).
    StatsWritten,
    /// The scores were recalculated and stored, or the store could not be used.
    Recalculated(Result<(), String>),
}

/// What a full synchronisation asks the caller to do next.
#[derive(Debug, PartialEq)]
pub enum SyncAllAction {
    /// Perform this action for the pair being synchronised.
    Pair(SyncAction),
    /// Record that the synchronisation of a pair failed with this message.
    LogPairError { user_id: i64, project_id: i64, message: String },
    /// Wait a moment before the next pair.
    Pause,
    /// Read the description of the project at this position, with this
    /// token: the first contributor's.
    FetchRepo { project_pos: usize, token: String },
    /// Store these statistics for a project.
    WriteProjectStats {
        project_id: i64,
        stars: i64,
        forks: i64,
        open_issues: i64,
        description: Option<String>,
        language: Option<String>,
    },
    /// Recalculate and store every contributor's scores.
    Recalculate,
    /// Record that the synchronisation succeeded with this many items.
    LogSuccess { items: u64 },
    /// The synchronisation is over: the number of items written, or the error
    /// that stopped it.
    Finish(Result<u64, String>),
}

/// The synchronisation of every contributor in every project, then of the
/// projects' statistics, then of the scores.
pub struct SyncAll {
    pub users: Vec<User>,
    pub projects: Vec<Project>,
    pub since: Option<String>,
    pub stage: SyncAllStage,
    pub total: u64,
    pub user_pos: usize,
    pub project_pos: usize,
    pub pair: UserProjectSync,
    pub repo_pos: usize,
}

/// Whether a full synchronisation in this stage awaits an event of this kind.
pub open spec fn accepts_all(m: SyncAll, e: SyncAllEvent) -> bool {
    match e {
        SyncAllEvent::Pair(pe) => m.stage == SyncAllStage::SyncingPair && accepts(m.pair.stage, pe),
        SyncAllEvent::Logged => m.stage == SyncAllStage::LoggingPairError || m.stage == SyncAllStage::LoggingSuccess,
        SyncAllEvent::Paused => m.stage == SyncAllStage::PausingAfterPair,
        SyncAllEvent::Repo(_) => m.stage == SyncAllStage::FetchingRepo,
        SyncAllEvent::StatsWritten => m.stage == SyncAllStage::WritingStats,
        SyncAllEvent::Recalculated(_) => m.stage == SyncAllStage::Recalculating,
    }
}

impl SyncAll {
    /// The positions point at a pair, and the pair machine is that pair's.
    pub open spec fn wf(&self) -> bool {
        &&& self.stage != SyncAllStage::Finished ==> self.users.len() > 0 && self.projects.len() > 0
        &&& (self.stage == SyncAllStage::SyncingPair || self.stage == SyncAllStage::LoggingPairError
            || self.stage == SyncAllStage::PausingAfterPair) ==> {
            &&& self.user_pos < self.users.len()
            &&& self.project_pos < self.projects.len()
        }
        &&& self.stage == SyncAllStage::SyncingPair ==> {
            &&& self.pair.wf()
            &&& self.pair.stage != SyncStage::Finished
            &&& self.pair.user == self.users@[self.user_pos as int]
            &&& self.pair.project == self.projects@[self.project_pos as int]
            &&& self.pair.since == self.since
        }
        &&& (self.stage == SyncAllStage::FetchingRepo || self.stage == SyncAllStage::WritingStats) ==> self.repo_pos
            < self.projects.len()
    }

    /// The machine `t` moves on to the repository at `r`: it reads its
    /// description, or recalculates the scores where all were read.
    pub open spec fn repo_or_recalculate(t: Self, a: SyncAllAction, r: int) -> bool {
        if r < t.projects.len() {
            t.stage == SyncAllStage::FetchingRepo && t.repo_pos == r && a == SyncAllAction::FetchRepo {
                project_pos: r as usize,
                token: t.users@[0].github_pat,
            }
        } else {
            t.stage == SyncAllStage::Recalculating && a == SyncAllAction::Recalculate
        }
    }

    /// The machine `t` starts the pair of the user and project at these
    /// positions: it asks for that pair's pull requests.
    pub open spec fn starts_pair(t: Self, a: SyncAllAction, u: int, p: int) -> bool {
        &&& t.stage == SyncAllStage::SyncingPair
        &&& t.user_pos == u
        &&& t.project_pos == p
        &&& t.pair.user == t.users@[u]
        &&& t.pair.project == t.projects@[p]
        &&& t.pair.since == t.since
        &&& t.pair.stage == SyncStage::ListingPullRequests
        &&& t.pair.count == 0
        &&& a == SyncAllAction::Pair(SyncAction::FetchPullRequests)
    }

    /// One step of a full synchronisation: the machine `s`, given the
    /// outcome `e` of the action it asked for, becomes `t` and asks for `a`.
    pub open spec fn steps_to(s: Self, e: SyncAllEvent, t: Self, a: SyncAllAction) -> bool {
        &&& t.users == s.users
        &&& t.projects == s.projects
        &&& t.since == s.since
        &&& match e {
            SyncAllEvent::Pair(pe) => exists|pt: UserProjectSync, pa: SyncAction|
                {
                    &&& #[trigger] UserProjectSync::steps_to(s.pair, pe, pt, pa)
                    &&& t.user_pos == s.user_pos
                    &&& t.project_pos == s.project_pos
                    &&& match pa {
                        SyncAction::Finish(Ok(c)) => {
                            &&& t.total == s.total + c
                            &&& t.stage == SyncAllStage::PausingAfterPair
                            &&& a == SyncAllAction::Pause
                        },
                        SyncAction::Finish(Err(m)) => {
                            &&& t.total == s.total
                            &&& t.stage == SyncAllStage::LoggingPairError
                            &&& a == SyncAllAction::LogPairError {
                                user_id: s.users@[s.user_pos as int].id,
                                project_id: s.projects@[s.project_pos as int].id,
                                message: m,
                            }
                        },
                        _ => {
                            &&& t.total == s.total
                            &&& t.stage == SyncAllStage::SyncingPair
                            &&& t.pair == pt
                            &&& a == SyncAllAction::Pair(pa)
                        },
                    }
                },
            SyncAllEvent::Logged => if s.stage == SyncAllStage::LoggingPairError {
                &&& t.total == s.total
                &&& t.user_pos == s.user_pos
                &&& t.project_pos == s.project_pos
                &&& t.stage == SyncAllStage::PausingAfterPair
                &&& a == SyncAllAction::Pause
            } else {
                t.total == s.total && t.stage == SyncAllStage::Finished && a == SyncAllAction::Finish(Ok(s.total))
            },
            SyncAllEvent::Paused => {
                &&& t.total == s.total
                &&& if s.project_pos + 1 < s.projects.len() {
                    Self::starts_pair(t, a, s.user_pos as int, s.project_pos + 1)
                } else if s.user_pos + 1 < s.users.len() {
                    Self::starts_pair(t, a, s.user_pos + 1, 0)
                } else {
                    Self::repo_or_recalculate(t, a, 0)
                }
            },
            SyncAllEvent::Repo(Ok(info)) => {
                &&& t.total == s.total
                &&& t.repo_pos == s.repo_pos
                &&& t.stage == SyncAllStage::WritingStats
                &&& a == SyncAllAction::WriteProjectStats {
                    project_id: s.projects@[s.repo_pos as int].id,
                    stars: info.stargazers_count as i64,
                    forks: info.forks_count as i64,
                    open_issues: info.open_issues_count as i64,
                    description: info.description,
                    language: info.language,
                }
            },
            SyncAllEvent::Repo(Err(_)) => t.total == s.total && Self::repo_or_recalculate(t, a, s.repo_pos + 1),
            SyncAllEvent::StatsWritten => t.total == s.total && Self::repo_or_recalculate(t, a, s.repo_pos + 1),
            SyncAllEvent::Recalculated(Ok(())) => {
                &&& t.total == s.total
                &&& t.stage == SyncAllStage::LoggingSuccess
                &&& a == SyncAllAction::LogSuccess { items: s.total }
            },
            SyncAllEvent::Recalculated(Err(m)) => {
                &&& t.total == s.total
                &&& t.stage == SyncAllStage::Finished
                &&& a == SyncAllAction::Finish(Err(m))
            },
        }
    }

    /// Starts a full synchronisation of these users and projects, counting
    /// only what changed since the last successful one (`since`). Where there
    /// is no user or no project, it finishes at once with no item.
    pub fn start(users: Vec<User>, projects: Vec<Project>, since: Option<String>) -> (r: (Self, SyncAllAction))
        ensures
            r.0.wf(),
            r.0.users == users,
            r.0.projects == projects,
            r.0.since == since,
            r.0.total == 0,
            users.len() == 0 || projects.len() == 0 ==> r.0.stage == SyncAllStage::Finished && r.1
                == SyncAllAction::Finish(Ok(0)),
            users.len() > 0 && projects.len() > 0 ==> Self::starts_pair(r.0, r.1, 0, 0),
    {
        if users.len() == 0 || projects.len() == 0 {
            let (pair, _) = UserProjectSync::start(
                User {
                    id: 0,
                    github_username: String::new(),
                    github_pat: String::new(),
                    display_name: None,
                    avatar_url: None,
                    is_maintainer: false,
                    created_at: String::new(),
                    updated_at: String::new(),
                },
                Project {
                    id: 0,
                    owner: String::new(),
                    repo: String::new(),
                    description: None,
                    stars: 0,
                    forks: 0,
                    open_issues: 0,
                    language: None,
                    last_synced_at: None,
                    created_at: String::new(),
                },
                None,
            );
            return (
                SyncAll {
                    users,
                    projects,
                    since,
                    stage: SyncAllStage::Finished,
                    total: 0,
                    user_pos: 0,
                    project_pos: 0,
                    pair,
                    repo_pos: 0,
                },
                SyncAllAction::Finish(Ok(0)),
            );
        }
        let since_copy = clone_opt_text(&since);
        let (pair, _) = UserProjectSync::start(users[0].clone(), projects[0].clone(), since_copy);
        (
            SyncAll {
                users,
                projects,
                since,
                stage: SyncAllStage::SyncingPair,
                total: 0,
                user_pos: 0,
                project_pos: 0,
                pair,
                repo_pos: 0,
            },
            SyncAllAction::Pair(SyncAction::FetchPullRequests),
        )
    }

    /// Whether the machine awaits an event of this kind.
    pub fn awaits(&self, e: &SyncAllEvent) -> (r: bool)
        ensures
            r == accepts_all(*self, *e),
    {
        match e {
            SyncAllEvent::Pair(pe) => self.stage == SyncAllStage::SyncingPair && self.pair.awaits(pe),
            SyncAllEvent::Logged => self.stage == SyncAllStage::LoggingPairError || self.stage
                == SyncAllStage::LoggingSuccess,
            SyncAllEvent::Paused => self.stage == SyncAllStage::PausingAfterPair,
            SyncAllEvent::Repo(_) => self.stage == SyncAllStage::FetchingRepo,
            SyncAllEvent::StatsWritten => self.stage == SyncAllStage::WritingStats,
            SyncAllEvent::Recalculated(_) => self.stage == SyncAllStage::Recalculating,
        }
    }

    fn begin_pair(&mut self, u: usize, p: usize) -> (a: SyncAllAction)
        requires
            u < old(self).users.len(),
            p < old(self).projects.len(),
        ensures
            final(self).wf(),
            Self::starts_pair(*final(self), a, u as int, p as int),
            final(self).users == old(self).users,
            final(self).projects == old(self).projects,
            final(self).since == old(self).since,
            final(self).total == old(self).total,
    {
        let since_copy = clone_opt_text(&self.since);
        let (pair, action) = UserProjectSync::start(self.users[u].clone(), self.projects[p].clone(), since_copy);
        self.pair = pair;
        self.user_pos = u;
        self.project_pos = p;
        self.stage = SyncAllStage::SyncingPair;
        SyncAllAction::Pair(action)
    }

    fn next_repo(&mut self, r: usize) -> (a: SyncAllAction)
        requires
            old(self).users.len() > 0,
            old(self).projects.len() > 0,
            r <= old(self).projects.len(),
        ensures
            final(self).wf(),
            Self::repo_or_recalculate(*final(self), a, r as int),
            final(self).users == old(self).users,
            final(self).projects == old(self).projects,
            final(self).since == old(self).since,
            final(self).total == old(self).total,
    {
        if r < self.projects.len() {
            self.repo_pos = r;
            self.stage = SyncAllStage::FetchingRepo;
            SyncAllAction::FetchRepo { project_pos: r, token: self.users[0].github_pat.clone() }
        } else {
            self.stage = SyncAllStage::Recalculating;
            SyncAllAction::Recalculate
        }
    }

    /// Feeds the outcome of the last action to the machine and returns the
    /// next action.
    pub fn step(&mut self, e: SyncAllEvent) -> (a: SyncAllAction)
        requires
            old(self).wf(),
            accepts_all(*old(self), e),
            old(self).total as int + old(self).pair.count as int + 1 <= u64::MAX,
        ensures
            final(self).wf(),
            Self::steps_to(*old(self), e, *final(self), a),
    {
        match e {
            SyncAllEvent::Pair(pe) => {
                let ghost before = self.pair;
                let ghost pev = pe;
                let pa = self.pair.step(pe);
                let ghost pt = self.pair;
                assert(UserProjectSync::steps_to(before, pev, pt, pa));
                match pa {
                    SyncAction::Finish(Ok(c)) => {
                        self.total = self.total + c;
                        self.stage = SyncAllStage::PausingAfterPair;
                        SyncAllAction::Pause
                    },
                    SyncAction::Finish(Err(m)) => {
                        self.stage = SyncAllStage::LoggingPairError;
                        SyncAllAction::LogPairError {
                            user_id: self.users[self.user_pos].id,
                            project_id: self.projects[self.project_pos].id,
                            message: m,
                        }
                    },
                    other => SyncAllAction::Pair(other),
                }
            },
            SyncAllEvent::Logged => {
                if self.stage == SyncAllStage::LoggingPairError {
                    self.stage = SyncAllStage::PausingAfterPair;
                    SyncAllAction::Pause
                } else {
                    self.stage = SyncAllStage::Finished;
                    SyncAllAction::Finish(Ok(self.total))
                }
            },
            SyncAllEvent::Paused => {
                if self.project_pos + 1 < self.projects.len() {
                    let u = self.user_pos;
                    let p = self.project_pos + 1;
                    self.begin_pair(u, p)
                } else if self.user_pos + 1 < self.users.len() {
                    let u = self.user_pos + 1;
                    self.begin_pair(u, 0)
                } else {
                    self.next_repo(0)
                }
            },
            SyncAllEvent::Repo(Ok(info)) => {
                self.stage = SyncAllStage::WritingStats;
                SyncAllAction::WriteProjectStats {
                    project_id: self.projects[self.repo_pos].id,
                    stars: #[verifier::truncate] (info.stargazers_count as i64),
                    forks: #[verifier::truncate] (info.forks_count as i64),
                    open_issues: #[verifier::truncate] (info.open_issues_count as i64),
                    description: info.description,
                    language: info.language,
                }
            },
            SyncAllEvent::Repo(Err(_)) => {
                let r = self.repo_pos + 1;
                self.next_repo(r)
            },
            SyncAllEvent::StatsWritten => {
                let r = self.repo_pos + 1;
                self.next_repo(r)
            },
            SyncAllEvent::Recalculated(Ok(())) => {
                self.stage = SyncAllStage::LoggingSuccess;
                SyncAllAction::LogSuccess { items: self.total }
            },
            SyncAllEvent::Recalculated(Err(m)) => {
                self.stage = SyncAllStage::Finished;
                SyncAllAction::Finish(Err(m))
            },
        }
    }
}

/// The work a full synchronisation has left: the phase, the users and
/// projects left to pair, the repositories left to read and the step on the
/// current pair or repository, compared in order; then the work left on the
/// pair being synchronised.
pub open spec fn all_progress(m: SyncAll) -> ((nat, nat, nat, nat, nat), (nat, nat, nat, nat)) {
    let in_pairs = m.stage == SyncAllStage::SyncingPair || m.stage == SyncAllStage::LoggingPairError || m.stage
        == SyncAllStage::PausingAfterPair;
    let in_repos = m.stage == SyncAllStage::FetchingRepo || m.stage == SyncAllStage::WritingStats;
    let major: nat = if in_pairs {
        4
    } else if in_repos {
        3
    } else if m.stage == SyncAllStage::Recalculating {
        2
    } else if m.stage == SyncAllStage::LoggingSuccess {
        1
    } else {
        0
    };
    let users_left: nat = if in_pairs { (m.users.len() - m.user_pos) as nat } else { 0 };
    let projects_left: nat = if in_pairs { (m.projects.len() - m.project_pos) as nat } else { 0 };
    let repos_left: nat = if in_repos { (m.projects.len() - m.repo_pos) as nat } else { 0 };
    let sub: nat = if m.stage == SyncAllStage::SyncingPair || m.stage == SyncAllStage::FetchingRepo {
        2
    } else if m.stage == SyncAllStage::LoggingPairError {
        1
    } else {
        0
    };
    let inner = if m.stage == SyncAllStage::SyncingPair { progress(m.pair) } else { (0nat, 0nat, 0nat, 0nat) };
    ((major, users_left, projects_left, repos_left, sub), inner)
}

/// Lexicographic order of five counts.
pub open spec fn lex5_less(a: (nat, nat, nat, nat, nat), b: (nat, nat, nat, nat, nat)) -> bool {
    ||| a.0 < b.0
    ||| (a.0 == b.0 && a.1 < b.1)
    ||| (a.0 == b.0 && a.1 == b.1 && a.2 < b.2)
    ||| (a.0 == b.0 && a.1 == b.1 && a.2 == b.2 && a.3 < b.3)
    ||| (a.0 == b.0 && a.1 == b.1 && a.2 == b.2 && a.3 == b.3 && a.4 < b.4)
}

/// Every step of a full synchronisation leaves strictly less work, in an
/// order with no infinite descent: the full synchronisation finishes.
pub proof fn lemma_full_sync_makes_progress(s: SyncAll, e: SyncAllEvent, t: SyncAll, a: SyncAllAction)
    requires
        s.wf(),
        t.wf(),
        accepts_all(s, e),
        SyncAll::steps_to(s, e, t, a),
    ensures
        lex5_less(all_progress(t).0, all_progress(s).0) || (all_progress(t).0 == all_progress(s).0 && lex_less(
            all_progress(t).1,
            all_progress(s).1,
        )),
{
    match e {
        SyncAllEvent::Pair(pe) => {
            let (pt, pa) = choose|pt: UserProjectSync, pa: SyncAction|
                #[trigger] UserProjectSync::steps_to(s.pair, pe, pt, pa) && t.user_pos == s.user_pos && t.project_pos
                    == s.project_pos && match pa {
                    SyncAction::Finish(Ok(c)) => t.total == s.total + c && t.stage == SyncAllStage::PausingAfterPair
                        && a == SyncAllAction::Pause,
                    SyncAction::Finish(Err(m)) => t.total == s.total && t.stage == SyncAllStage::LoggingPairError
                        && a == SyncAllAction::LogPairError {
                        user_id: s.users@[s.user_pos as int].id,
                        project_id: s.projects@[s.project_pos as int].id,
                        message: m,
                    },
                    _ => t.total == s.total && t.stage == SyncAllStage::SyncingPair && t.pair == pt && a
                        == SyncAllAction::Pair(pa),
                };
            if !(pa is Finish) {
                lemma_step_makes_progress(s.pair, pe, pt, pa);
            }
        },
        _ => {},
    }
}

/// A full synchronisation that succeeds reports the sum of what its pairs
/// reported: each step adds to the running total exactly the count with
/// which a pair finished, and the success record and the final outcome carry
/// the running total.
pub proof fn lemma_total_is_sum_of_pairs(s: SyncAll, e: SyncAllEvent, t: SyncAll, a: SyncAllAction)
    requires
        accepts_all(s, e),
        SyncAll::steps_to(s, e, t, a),
    ensures
        a matches SyncAllAction::Finish(Ok(n)) ==> n == s.total,
        a matches SyncAllAction::LogSuccess { items } ==> items == s.total,
        (e matches SyncAllEvent::Pair(_)) ==> (t.total == s.total || exists|pt: UserProjectSync, c: u64|
            UserProjectSync::steps_to(s.pair, e->Pair_0, pt, SyncAction::Finish(Ok(c))) && t.total == s.total + c),
        !(e matches SyncAllEvent::Pair(_)) ==> t.total == s.total,
{
    match e {
        SyncAllEvent::Pair(pe) => {
            let (pt, pa) = choose|pt: UserProjectSync, pa: SyncAction| #[trigger] UserProjectSync::steps_to(s.pair, pe, pt, pa) && (
            match pa {
                SyncAction::Finish(Ok(c)) => t.total == s.total + c && t.stage == SyncAllStage::PausingAfterPair
                    && a == SyncAllAction::Pause,
                SyncAction::Finish(Err(m)) => t.total == s.total && t.stage == SyncAllStage::LoggingPairError && a
                    == SyncAllAction::LogPairError {
                    user_id: s.users@[s.user_pos as int].id,
                    project_id: s.projects@[s.project_pos as int].id,
                    message: m,
                },
                _ => t.total == s.total && t.stage == SyncAllStage::SyncingPair && t.pair == pt && a
                    == SyncAllAction::Pair(pa),
            });
        },
        _ => {},
    }
}

} // verus!
