//! Contribution scores.
//!
//! A contributor's total score is the sum of three parts:
//! - the lines score: over the merged pull requests, additions count one
//!   point and deletions half a point, the sum cut toward zero;
//! - the comments score: two points per issue comment, three per pull-request
//!   comment and five per issue opened;
//! - the bonus score: the points that maintainers awarded.
//!
//! Scores exist per project and globally; a bonus awarded without a project
//! counts toward every project.
use vstd::prelude::*;
use crate::models::{BonusPoint, Comment, Issue, Project, PullRequest, User};
use crate::text::{text_eq, text_less, text_lt};

verus! {

/// The least value of `i64`, as an integer.
pub open spec fn i64_min() -> int {
    -0x8000_0000_0000_0000
}

/// The greatest value of `i64`, as an integer.
pub open spec fn i64_max() -> int {
    0x7fff_ffff_ffff_ffff
}

/// Whether an integer fits in `i64`.
pub open spec fn fits_i64(x: int) -> bool {
    i64_min() <= x <= i64_max()
}

/// An integer brought into the range of `i64` by saturation.
pub open spec fn clamp_i64(x: int) -> int {
    if x < i64_min() {
        i64_min()
    } else if x > i64_max() {
        i64_max()
    } else {
        x
    }
}

/// Half of an integer, cut toward zero.
pub open spec fn half_toward_zero(x: int) -> int {
    if x >= 0 {
        x / 2
    } else {
        -((-x) / 2)
    }
}

/// Whether a row belongs to a score: per project (`Some`) or global (`None`).
pub open spec fn in_scope(row_project: i64, project_id: Option<i64>) -> bool {
    match project_id {
        Some(pid) => row_project == pid,
        None => true,
    }
}

/// A pull request counts toward the lines score once merged: its state
/// reads `merged` or it carries a merge time.
pub open spec fn is_merged(pr: PullRequest) -> bool {
    pr.state@ == "merged"@ || pr.merged_at is Some
}

/// Twice the lines points of one pull request: two per addition, one per
/// deletion.
pub open spec fn doubled_lines(pr: PullRequest) -> int {
    2 * pr.additions + pr.deletions
}

/// Twice the lines score of a contributor before it is halved.
pub open spec fn lines_sum(prs: Seq<PullRequest>, user_id: i64, project_id: Option<i64>) -> int
    decreases prs.len(),
{
    if prs.len() == 0 {
        0
    } else {
        let pr = prs.last();
        lines_sum(prs.drop_last(), user_id, project_id) + if pr.user_id == user_id
            && in_scope(pr.project_id, project_id) && is_merged(pr) {
            doubled_lines(pr)
        } else {
            0
        }
    }
}

/// The lines score: additions plus half the deletions of the contributor's
/// merged pull requests, cut toward zero and saturated to `i64`.
pub open spec fn lines_score_spec(prs: Seq<PullRequest>, user_id: i64, project_id: Option<i64>) -> int {
    clamp_i64(half_toward_zero(lines_sum(prs, user_id, project_id)))
}

/// The number of the contributor's comments of a target type.
pub open spec fn comment_count(comments: Seq<Comment>, user_id: i64, project_id: Option<i64>, target: Seq<char>) -> int
    decreases comments.len(),
{
    if comments.len() == 0 {
        0
    } else {
        let c = comments.last();
        comment_count(comments.drop_last(), user_id, project_id, target) + if c.user_id == user_id
            && in_scope(c.project_id, project_id) && c.target_type@ == target {
            1int
        } else {
            0int
        }
    }
}

/// The number of issues the contributor opened.
pub open spec fn issue_count(issues: Seq<Issue>, user_id: i64, project_id: Option<i64>) -> int
    decreases issues.len(),
{
    if issues.len() == 0 {
        0
    } else {
        let i = issues.last();
        issue_count(issues.drop_last(), user_id, project_id) + if i.user_id == user_id && in_scope(
            i.project_id,
            project_id,
        ) {
            1int
        } else {
            0int
        }
    }
}

/// The comments score: two points per issue comment, three per pull-request
/// comment, five per issue opened.
pub open spec fn comments_score_spec(
    comments: Seq<Comment>,
    issues: Seq<Issue>,
    user_id: i64,
    project_id: Option<i64>,
) -> int {
    2 * comment_count(comments, user_id, project_id, "issue"@)
        + 3 * comment_count(comments, user_id, project_id, "pr"@)
        + 5 * issue_count(issues, user_id, project_id)
}

/// A bonus belongs to a score: globally every bonus of the contributor
/// counts; per project, those of the project and those awarded without one.
pub open spec fn bonus_in_scope(b: BonusPoint, user_id: i64, project_id: Option<i64>) -> bool {
    b.user_id == user_id && match project_id {
        Some(pid) => b.project_id == Some(pid) || b.project_id is None,
        None => true,
    }
}

/// The bonus score: the sum of the points of the contributor's bonuses in scope.
pub open spec fn bonus_sum(bonuses: Seq<BonusPoint>, user_id: i64, project_id: Option<i64>) -> int
    decreases bonuses.len(),
{
    if bonuses.len() == 0 {
        0
    } else {
        let b = bonuses.last();
        bonus_sum(bonuses.drop_last(), user_id, project_id) + if bonus_in_scope(b, user_id, project_id) {
            b.points as int
        } else {
            0int
        }
    }
}

/// The largest number of rows that a table handed to the scoring functions
/// may hold: a quarter of the address space, which no vector of rows reaches.
pub open spec fn max_rows() -> int {
    usize::MAX as int / 4
}

/// Whether a pull request counts toward the lines score of a contributor.
fn pr_counts_for_lines(pr: &PullRequest, user_id: i64, project_id: Option<i64>) -> (r: bool)
    ensures
        r == (pr.user_id == user_id && in_scope(pr.project_id, project_id) && is_merged(*pr)),
{
    let scoped = match project_id {
        Some(pid) => pr.project_id == pid,
        None => true,
    };
    pr.user_id == user_id && scoped && (text_eq(pr.state.as_str(), "merged") || pr.merged_at.is_some())
}

/// Half of an `i128`, cut toward zero, saturated to `i64`.
fn halve_saturating(x: i128) -> (r: i64)
    requires
        x > i128::MIN,
    ensures
        r == clamp_i64(half_toward_zero(x as int)),
{
    let h: i128 = if x >= 0 { x / 2 } else { -((-x) / 2) };
    if h < -0x8000_0000_0000_0000i128 {
        i64::MIN
    } else if h > 0x7fff_ffff_ffff_ffffi128 {
        i64::MAX
    } else {
        h as i64
    }
}

/// The lines score of a contributor, globally or in one project.
pub fn compute_lines_score(prs: &Vec<PullRequest>, user_id: i64, project_id: Option<i64>) -> (score: i64)
    requires
        prs.len() <= max_rows(),
    ensures
        score == lines_score_spec(prs@, user_id, project_id),
{
    let mut acc: i128 = 0;
    let mut i: usize = 0;
    while i < prs.len()
        invariant
            i <= prs.len(),
            prs.len() <= max_rows(),
            acc == lines_sum(prs@.take(i as int), user_id, project_id),
            -(i as int) * 0x1_8000_0000_0000_0000 <= acc <= (i as int) * 0x1_8000_0000_0000_0000,
        decreases prs.len() - i,
    {
        let pr = &prs[i];
        assert(prs@.take(i + 1).drop_last() =~= prs@.take(i as int));
        if pr_counts_for_lines(pr, user_id, project_id) {
            acc = acc + 2 * (pr.additions as i128) + (pr.deletions as i128);
        }
        i = i + 1;
    }
    assert(prs@.take(prs.len() as int) =~= prs@);
    halve_saturating(acc)
}

/// The comments score of a contributor, globally or in one project; `None`
/// where it does not fit in `i64`.
pub fn compute_comments_score(
    comments: &Vec<Comment>,
    issues: &Vec<Issue>,
    user_id: i64,
    project_id: Option<i64>,
) -> (score: Option<i64>)
    requires
        comments.len() <= max_rows(),
        issues.len() <= max_rows(),
    ensures
        score matches Some(s) ==> s == comments_score_spec(comments@, issues@, user_id, project_id),
        score is None <==> !fits_i64(comments_score_spec(comments@, issues@, user_id, project_id)),
{
    let mut issue_comments: i128 = 0;
    let mut pr_comments: i128 = 0;
    let mut i: usize = 0;
    while i < comments.len()
        invariant
            i <= comments.len(),
            comments.len() <= max_rows(),
            issue_comments == comment_count(comments@.take(i as int), user_id, project_id, "issue"@),
            pr_comments == comment_count(comments@.take(i as int), user_id, project_id, "pr"@),
            0 <= issue_comments <= i,
            0 <= pr_comments <= i,
        decreases comments.len() - i,
    {
        let c = &comments[i];
        assert(comments@.take(i + 1).drop_last() =~= comments@.take(i as int));
        let scoped = match project_id {
            Some(pid) => c.project_id == pid,
            None => true,
        };
        if c.user_id == user_id && scoped {
            if text_eq(c.target_type.as_str(), "issue") {
                issue_comments = issue_comments + 1;
            }
            if text_eq(c.target_type.as_str(), "pr") {
                pr_comments = pr_comments + 1;
            }
        }
        i = i + 1;
    }
    assert(comments@.take(comments.len() as int) =~= comments@);
    let mut opened: i128 = 0;
    let mut j: usize = 0;
    while j < issues.len()
        invariant
            j <= issues.len(),
            issues.len() <= max_rows(),
            opened == issue_count(issues@.take(j as int), user_id, project_id),
            0 <= opened <= j,
        decreases issues.len() - j,
    {
        let it = &issues[j];
        assert(issues@.take(j + 1).drop_last() =~= issues@.take(j as int));
        let scoped = match project_id {
            Some(pid) => it.project_id == pid,
            None => true,
        };
        if it.user_id == user_id && scoped {
            opened = opened + 1;
        }
        j = j + 1;
    }
    assert(issues@.take(issues.len() as int) =~= issues@);
    let total: i128 = 2 * issue_comments + 3 * pr_comments + 5 * opened;
    if total < -0x8000_0000_0000_0000i128 || total > 0x7fff_ffff_ffff_ffffi128 {
        None
    } else {
        Some(total as i64)
    }
}

/// The bonus score of a contributor, globally or in one project; `None`
/// where the sum does not fit in `i64`.
pub fn compute_bonus_total(bonuses: &Vec<BonusPoint>, user_id: i64, project_id: Option<i64>) -> (total: Option<i64>)
    requires
        bonuses.len() <= max_rows(),
    ensures
        total matches Some(t) ==> t == bonus_sum(bonuses@, user_id, project_id),
        total is None <==> !fits_i64(bonus_sum(bonuses@, user_id, project_id)),
{
    let mut acc: i128 = 0;
    let mut i: usize = 0;
    while i < bonuses.len()
        invariant
            i <= bonuses.len(),
            bonuses.len() <= max_rows(),
            acc == bonus_sum(bonuses@.take(i as int), user_id, project_id),
            -(i as int) * 0x8000_0000_0000_0000 <= acc <= (i as int) * 0x8000_0000_0000_0000,
        decreases bonuses.len() - i,
    {
        let b = &bonuses[i];
        assert(bonuses@.take(i + 1).drop_last() =~= bonuses@.take(i as int));
        let scoped = match project_id {
            Some(pid) => match b.project_id {
                Some(bp) => bp == pid,
                None => true,
            },
            None => true,
        };
        if b.user_id == user_id && scoped {
            acc = acc + (b.points as i128);
        }
        i = i + 1;
    }
    assert(bonuses@.take(bonuses.len() as int) =~= bonuses@);
    if acc < -0x8000_0000_0000_0000i128 || acc > 0x7fff_ffff_ffff_ffffi128 {
        None
    } else {
        Some(acc as i64)
    }
}

/// The total of a score row: lines plus comments plus bonus; `None` where it
/// does not fit in `i64`.
pub fn score_total(lines: i64, comments: i64, bonus: i64) -> (total: Option<i64>)
    ensures
        total matches Some(t) ==> t == lines + comments + bonus,
        total is None <==> !fits_i64(lines + comments + bonus),
{
    let t: i128 = lines as i128 + comments as i128 + bonus as i128;
    if t < -0x8000_0000_0000_0000i128 || t > 0x7fff_ffff_ffff_ffffi128 {
        None
    } else {
        Some(t as i64)
    }
}

/// Whether a row created at `created_at` falls in the window that starts at
/// `since`: its time does not sort before `since`.
pub open spec fn is_recent(created_at: Seq<char>, since: Seq<char>) -> bool {
    !text_lt(created_at, since)
}

/// Twice the lines points of a project's recent merged pull requests.
pub open spec fn hot_lines_sum(prs: Seq<PullRequest>, project_id: i64, since: Seq<char>) -> int
    decreases prs.len(),
{
    if prs.len() == 0 {
        0
    } else {
        let pr = prs.last();
        hot_lines_sum(prs.drop_last(), project_id, since) + if pr.project_id == project_id && is_merged(pr)
            && is_recent(pr.created_at@, since) {
            doubled_lines(pr)
        } else {
            0
        }
    }
}

/// The number of a project's recent comments.
pub open spec fn hot_comment_count(comments: Seq<Comment>, project_id: i64, since: Seq<char>) -> int
    decreases comments.len(),
{
    if comments.len() == 0 {
        0
    } else {
        let c = comments.last();
        hot_comment_count(comments.drop_last(), project_id, since) + if c.project_id == project_id
            && is_recent(c.created_at@, since) {
            1int
        } else {
            0int
        }
    }
}

/// The number of a project's recent issues.
pub open spec fn hot_issue_count(issues: Seq<Issue>, project_id: i64, since: Seq<char>) -> int
    decreases issues.len(),
{
    if issues.len() == 0 {
        0
    } else {
        let i = issues.last();
        hot_issue_count(issues.drop_last(), project_id, since) + if i.project_id == project_id
            && is_recent(i.created_at@, since) {
            1int
        } else {
            0int
        }
    }
}

/// The points of a project's recent bonuses (those awarded to the project itself).
pub open spec fn hot_bonus_sum(bonuses: Seq<BonusPoint>, project_id: i64, since: Seq<char>) -> int
    decreases bonuses.len(),
{
    if bonuses.len() == 0 {
        0
    } else {
        let b = bonuses.last();
        hot_bonus_sum(bonuses.drop_last(), project_id, since) + if b.project_id == Some(project_id)
            && is_recent(b.created_at@, since) {
            b.points as int
        } else {
            0int
        }
    }
}

/// A project's hotness over the window that starts at `since`: the lines
/// score of its merged pull requests (saturated to `i64`), three points per
/// comment, five per issue, and the bonus points awarded to the project.
pub open spec fn hotness_spec(
    prs: Seq<PullRequest>,
    comments: Seq<Comment>,
    issues: Seq<Issue>,
    bonuses: Seq<BonusPoint>,
    project_id: i64,
    since: Seq<char>,
) -> int {
    clamp_i64(half_toward_zero(hot_lines_sum(prs, project_id, since)))
        + 3 * hot_comment_count(comments, project_id, since)
        + 5 * hot_issue_count(issues, project_id, since)
        + hot_bonus_sum(bonuses, project_id, since)
}

/// Whether a project's hotness can be computed: its bonus sum and its
/// hotness fit in `i64`.
pub open spec fn hotness_defined(
    prs: Seq<PullRequest>,
    comments: Seq<Comment>,
    issues: Seq<Issue>,
    bonuses: Seq<BonusPoint>,
    project_id: i64,
    since: Seq<char>,
) -> bool {
    fits_i64(hot_bonus_sum(bonuses, project_id, since)) && fits_i64(
        hotness_spec(prs, comments, issues, bonuses, project_id, since),
    )
}

/// A project's hotness over the window that starts at `since` (thirty days
/// before now, as the caller computes it); `None` where it does not fit.
pub fn get_project_hotness(
    prs: &Vec<PullRequest>,
    comments: &Vec<Comment>,
    issues: &Vec<Issue>,
    bonuses: &Vec<BonusPoint>,
    project_id: i64,
    since: &str,
) -> (h: Option<i64>)
    requires
        prs.len() <= max_rows(),
        comments.len() <= max_rows(),
        issues.len() <= max_rows(),
        bonuses.len() <= max_rows(),
    ensures
        h is None <==> !hotness_defined(prs@, comments@, issues@, bonuses@, project_id, since@),
        h matches Some(v) ==> v == hotness_spec(prs@, comments@, issues@, bonuses@, project_id, since@),
{
    let mut lines: i128 = 0;
    let mut i: usize = 0;
    while i < prs.len()
        invariant
            i <= prs.len(),
            prs.len() <= max_rows(),
            lines == hot_lines_sum(prs@.take(i as int), project_id, since@),
            -(i as int) * 0x1_8000_0000_0000_0000 <= lines <= (i as int) * 0x1_8000_0000_0000_0000,
        decreases prs.len() - i,
    {
        let pr = &prs[i];
        assert(prs@.take(i + 1).drop_last() =~= prs@.take(i as int));
        if pr.project_id == project_id && (text_eq(pr.state.as_str(), "merged") || pr.merged_at.is_some())
            && !text_less(pr.created_at.as_str(), since) {
            lines = lines + 2 * (pr.additions as i128) + (pr.deletions as i128);
        }
        i = i + 1;
    }
    assert(prs@.take(prs.len() as int) =~= prs@);
    let mut said: i128 = 0;
    let mut j: usize = 0;
    while j < comments.len()
        invariant
            j <= comments.len(),
            comments.len() <= max_rows(),
            said == hot_comment_count(comments@.take(j as int), project_id, since@),
            0 <= said <= j,
        decreases comments.len() - j,
    {
        let c = &comments[j];
        assert(comments@.take(j + 1).drop_last() =~= comments@.take(j as int));
        if c.project_id == project_id && !text_less(c.created_at.as_str(), since) {
            said = said + 1;
        }
        j = j + 1;
    }
    assert(comments@.take(comments.len() as int) =~= comments@);
    let mut opened: i128 = 0;
    let mut k: usize = 0;
    while k < issues.len()
        invariant
            k <= issues.len(),
            issues.len() <= max_rows(),
            opened == hot_issue_count(issues@.take(k as int), project_id, since@),
            0 <= opened <= k,
        decreases issues.len() - k,
    {
        let it = &issues[k];
        assert(issues@.take(k + 1).drop_last() =~= issues@.take(k as int));
        if it.project_id == project_id && !text_less(it.created_at.as_str(), since) {
            opened = opened + 1;
        }
        k = k + 1;
    }
    assert(issues@.take(issues.len() as int) =~= issues@);
    let mut points: i128 = 0;
    let mut m: usize = 0;
    while m < bonuses.len()
        invariant
            m <= bonuses.len(),
            bonuses.len() <= max_rows(),
            points == hot_bonus_sum(bonuses@.take(m as int), project_id, since@),
            -(m as int) * 0x8000_0000_0000_0000 <= points <= (m as int) * 0x8000_0000_0000_0000,
        decreases bonuses.len() - m,
    {
        let b = &bonuses[m];
        assert(bonuses@.take(m + 1).drop_last() =~= bonuses@.take(m as int));
        if b.project_id == Some(project_id) && !text_less(b.created_at.as_str(), since) {
            points = points + (b.points as i128);
        }
        m = m + 1;
    }
    assert(bonuses@.take(bonuses.len() as int) =~= bonuses@);
    if points < -0x8000_0000_0000_0000i128 || points > 0x7fff_ffff_ffff_ffffi128 {
        return None;
    }
    let half = halve_saturating(lines);
    let total: i128 = half as i128 + 3 * said + 5 * opened + points;
    if total < -0x8000_0000_0000_0000i128 || total > 0x7fff_ffff_ffff_ffffi128 {
        None
    } else {
        Some(total as i64)
    }
}

/// One score row to store: the three parts and their total, for a
/// contributor per project or globally (`project_id` is `None`).
#[derive(Debug, PartialEq)]
pub struct ScoreUpdate {
    pub user_id: i64,
    pub project_id: Option<i64>,
    pub lines_changed_score: i64,
    pub comments_score: i64,
    pub bonus_score: i64,
    pub total_score: i64,
}

/// The scope of the `b`-th score row of a contributor: global first, then
/// each project in the order given.
pub open spec fn scope_at(projects: Seq<Project>, b: int) -> Option<i64> {
    if b == 0 {
        None
    } else {
        Some(projects[b - 1].id)
    }
}

/// The comments part stored in a score row: the comments score, or zero
/// where it does not fit in `i64`.
pub open spec fn comments_part(
    comments: Seq<Comment>,
    issues: Seq<Issue>,
    user_id: i64,
    project_id: Option<i64>,
) -> int {
    let c = comments_score_spec(comments, issues, user_id, project_id);
    if fits_i64(c) {
        c
    } else {
        0
    }
}

/// The bonus part stored in a score row: the bonus score, or zero where it
/// does not fit in `i64`.
pub open spec fn bonus_part(bonuses: Seq<BonusPoint>, user_id: i64, project_id: Option<i64>) -> int {
    let b = bonus_sum(bonuses, user_id, project_id);
    if fits_i64(b) {
        b
    } else {
        0
    }
}

/// The total stored in a score row.
pub open spec fn total_part(
    prs: Seq<PullRequest>,
    issues: Seq<Issue>,
    comments: Seq<Comment>,
    bonuses: Seq<BonusPoint>,
    user_id: i64,
    project_id: Option<i64>,
) -> int {
    lines_score_spec(prs, user_id, project_id) + comments_part(comments, issues, user_id, project_id)
        + bonus_part(bonuses, user_id, project_id)
}

/// `row` is the score row of a contributor in a scope.
pub open spec fn is_score_row(
    row: ScoreUpdate,
    prs: Seq<PullRequest>,
    issues: Seq<Issue>,
    comments: Seq<Comment>,
    bonuses: Seq<BonusPoint>,
    user_id: i64,
    project_id: Option<i64>,
) -> bool {
    &&& row.user_id == user_id
    &&& row.project_id == project_id
    &&& row.lines_changed_score == lines_score_spec(prs, user_id, project_id)
    &&& row.comments_score == comments_part(comments, issues, user_id, project_id)
    &&& row.bonus_score == bonus_part(bonuses, user_id, project_id)
    &&& row.total_score == total_part(prs, issues, comments, bonuses, user_id, project_id)
}

/// Whether every score row's total fits in `i64`.
pub open spec fn all_totals_fit(
    users: Seq<User>,
    projects: Seq<Project>,
    prs: Seq<PullRequest>,
    issues: Seq<Issue>,
    comments: Seq<Comment>,
    bonuses: Seq<BonusPoint>,
) -> bool {
    forall|a: int, b: int|
        0 <= a < users.len() && 0 <= b <= projects.len() ==> fits_i64(
            #[trigger] total_part(prs, issues, comments, bonuses, users[a].id, scope_at(projects, b)),
        )
}

/// The score row of a contributor in one scope; `None` where its total
/// does not fit in `i64`.
fn score_row(
    prs: &Vec<PullRequest>,
    issues: &Vec<Issue>,
    comments: &Vec<Comment>,
    bonuses: &Vec<BonusPoint>,
    user_id: i64,
    project_id: Option<i64>,
) -> (r: Option<ScoreUpdate>)
    requires
        prs.len() <= max_rows(),
        issues.len() <= max_rows(),
        comments.len() <= max_rows(),
        bonuses.len() <= max_rows(),
    ensures
        r is None <==> !fits_i64(total_part(prs@, issues@, comments@, bonuses@, user_id, project_id)),
        r matches Some(row) ==> is_score_row(row, prs@, issues@, comments@, bonuses@, user_id, project_id),
{
    let lines = compute_lines_score(prs, user_id, project_id);
    let said = match compute_comments_score(comments, issues, user_id, project_id) {
        Some(c) => c,
        None => 0,
    };
    let bonus = match compute_bonus_total(bonuses, user_id, project_id) {
        Some(b) => b,
        None => 0,
    };
    match score_total(lines, said, bonus) {
        Some(total) => Some(
            ScoreUpdate {
                user_id,
                project_id,
                lines_changed_score: lines,
                comments_score: said,
                bonus_score: bonus,
                total_score: total,
            },
        ),
        None => None,
    }
}

/// Every contributor's score rows: for each user in the order given, the
/// global row and then one row per project in the order given. `None`
/// where some row's total does not fit in `i64`.
pub fn recalculate_all_scores(
    users: &Vec<User>,
    projects: &Vec<Project>,
    prs: &Vec<PullRequest>,
    issues: &Vec<Issue>,
    comments: &Vec<Comment>,
    bonuses: &Vec<BonusPoint>,
) -> (r: Option<Vec<Vec<ScoreUpdate>>>)
    requires
        prs.len() <= max_rows(),
        issues.len() <= max_rows(),
        comments.len() <= max_rows(),
        bonuses.len() <= max_rows(),
    ensures
        r is None <==> !all_totals_fit(users@, projects@, prs@, issues@, comments@, bonuses@),
        r matches Some(rows) ==> {
            &&& rows.len() == users.len()
            &&& forall|a: int| 0 <= a < users.len() ==> #[trigger] rows@[a]@.len() == projects.len() + 1
            &&& forall|a: int, b: int|
                0 <= a < users.len() && 0 <= b <= projects.len() ==> is_score_row(
                    #[trigger] rows@[a]@[b],
                    prs@,
                    issues@,
                    comments@,
                    bonuses@,
                    users@[a].id,
                    scope_at(projects@, b),
                )
        },
{
    let mut all: Vec<Vec<ScoreUpdate>> = Vec::new();
    let mut a: usize = 0;
    while a < users.len()
        invariant
            a <= users.len(),
            prs.len() <= max_rows(),
            issues.len() <= max_rows(),
            comments.len() <= max_rows(),
            bonuses.len() <= max_rows(),
            all.len() == a,
            forall|x: int| 0 <= x < a ==> #[trigger] all@[x]@.len() == projects.len() + 1,
            forall|x: int, y: int|
                0 <= x < a && 0 <= y <= projects.len() ==> is_score_row(
                    #[trigger] all@[x]@[y],
                    prs@,
                    issues@,
                    comments@,
                    bonuses@,
                    users@[x].id,
                    scope_at(projects@, y),
                ),
            forall|x: int, y: int|
                0 <= x < a && 0 <= y <= projects.len() ==> fits_i64(
                    #[trigger] total_part(prs@, issues@, comments@, bonuses@, users@[x].id, scope_at(projects@, y)),
                ),
        decreases users.len() - a,
    {
        let uid = users[a].id;
        let mut mine: Vec<ScoreUpdate> = Vec::new();
        match score_row(prs, issues, comments, bonuses, uid, None) {
            Some(row) => mine.push(row),
            None => {
                assert(!fits_i64(total_part(prs@, issues@, comments@, bonuses@, users@[a as int].id, scope_at(projects@, 0))));
                return None;
            },
        }
        let mut b: usize = 0;
        while b < projects.len()
            invariant
                a < users.len(),
                uid == users@[a as int].id,
                b <= projects.len(),
                prs.len() <= max_rows(),
                issues.len() <= max_rows(),
                comments.len() <= max_rows(),
                bonuses.len() <= max_rows(),
                mine.len() == b + 1,
                forall|y: int| 0 <= y <= b ==> is_score_row(
                    #[trigger] mine@[y],
                    prs@,
                    issues@,
                    comments@,
                    bonuses@,
                    uid,
                    scope_at(projects@, y),
                ),
                forall|y: int| 0 <= y <= b ==> fits_i64(
                    #[trigger] total_part(prs@, issues@, comments@, bonuses@, uid, scope_at(projects@, y)),
                ),
            decreases projects.len() - b,
        {
            let pid = projects[b].id;
            match score_row(prs, issues, comments, bonuses, uid, Some(pid)) {
                Some(row) => mine.push(row),
                None => {
                    assert(scope_at(projects@, b + 1) == Some(pid));
                    assert(!fits_i64(total_part(prs@, issues@, comments@, bonuses@, users@[a as int].id, scope_at(projects@, b + 1))));
                    return None;
                },
            }
            assert(scope_at(projects@, b + 1) == Some(pid));
            b = b + 1;
        }
        all.push(mine);
        a = a + 1;
    }
    Some(all)
}

/// Only merged pull requests count toward the lines score: a pull request
/// that is not merged changes no contributor's lines score.
pub proof fn lemma_unmerged_adds_no_lines(prs: Seq<PullRequest>, pr: PullRequest, user_id: i64, project_id: Option<i64>)
    requires
        !is_merged(pr),
    ensures
        lines_sum(prs.push(pr), user_id, project_id) == lines_sum(prs, user_id, project_id),
        lines_score_spec(prs.push(pr), user_id, project_id) == lines_score_spec(prs, user_id, project_id),
{
    assert(prs.push(pr).drop_last() =~= prs);
}

/// A merged pull request of a contributor adds two points per addition and
/// one per deletion to twice the contributor's lines score, globally and in
/// its project.
pub proof fn lemma_merged_adds_lines(prs: Seq<PullRequest>, pr: PullRequest, project_id: Option<i64>)
    requires
        is_merged(pr),
        in_scope(pr.project_id, project_id),
    ensures
        lines_sum(prs.push(pr), pr.user_id, project_id) == lines_sum(prs, pr.user_id, project_id) + 2 * pr.additions
            + pr.deletions,
{
    assert(prs.push(pr).drop_last() =~= prs);
}

/// A bonus awarded without a project counts toward the contributor's global
/// score and toward their score in every project.
pub proof fn lemma_unscoped_bonus_counts_everywhere(bonuses: Seq<BonusPoint>, b: BonusPoint, project_id: Option<i64>)
    requires
        b.project_id is None,
    ensures
        bonus_sum(bonuses.push(b), b.user_id, project_id) == bonus_sum(bonuses, b.user_id, project_id) + b.points,
{
    assert(bonuses.push(b).drop_last() =~= bonuses);
}

/// A bonus awarded in one project counts toward the contributor's global
/// score and their score in that project, and toward no other project.
pub proof fn lemma_scoped_bonus_counts_in_its_project(bonuses: Seq<BonusPoint>, b: BonusPoint, other: i64)
    requires
        b.project_id matches Some(pid) && pid != other,
    ensures
        bonus_sum(bonuses.push(b), b.user_id, None) == bonus_sum(bonuses, b.user_id, None) + b.points,
        bonus_sum(bonuses.push(b), b.user_id, b.project_id) == bonus_sum(bonuses, b.user_id, b.project_id) + b.points,
        bonus_sum(bonuses.push(b), b.user_id, Some(other)) == bonus_sum(bonuses, b.user_id, Some(other)),
{
    assert(bonuses.push(b).drop_last() =~= bonuses);
}

/// Another contributor's rows change no contributor's score parts.
pub proof fn lemma_other_contributors_ignored(
    prs: Seq<PullRequest>,
    pr: PullRequest,
    comments: Seq<Comment>,
    c: Comment,
    issues: Seq<Issue>,
    i: Issue,
    bonuses: Seq<BonusPoint>,
    b: BonusPoint,
    user_id: i64,
    project_id: Option<i64>,
)
    requires
        pr.user_id != user_id,
        c.user_id != user_id,
        i.user_id != user_id,
        b.user_id != user_id,
    ensures
        lines_sum(prs.push(pr), user_id, project_id) == lines_sum(prs, user_id, project_id),
        comments_score_spec(comments.push(c), issues.push(i), user_id, project_id) == comments_score_spec(
            comments,
            issues,
            user_id,
            project_id,
        ),
        bonus_sum(bonuses.push(b), user_id, project_id) == bonus_sum(bonuses, user_id, project_id),
{
    assert(prs.push(pr).drop_last() =~= prs);
    assert(comments.push(c).drop_last() =~= comments);
    assert(issues.push(i).drop_last() =~= issues);
    assert(bonuses.push(b).drop_last() =~= bonuses);
}

/// Each comment on an issue adds two points to its author's comments score,
/// each comment on a pull request three, and each issue opened five.
pub proof fn lemma_comment_and_issue_points(
    comments: Seq<Comment>,
    c: Comment,
    issues: Seq<Issue>,
    i: Issue,
    project_id: Option<i64>,
)
    requires
        in_scope(c.project_id, project_id),
        in_scope(i.project_id, project_id),
        i.user_id == c.user_id,
    ensures
        c.target_type@ == "issue"@ ==> comments_score_spec(comments.push(c), issues, c.user_id, project_id)
            == comments_score_spec(comments, issues, c.user_id, project_id) + 2,
        c.target_type@ == "pr"@ ==> comments_score_spec(comments.push(c), issues, c.user_id, project_id)
            == comments_score_spec(comments, issues, c.user_id, project_id) + 3,
        comments_score_spec(comments, issues.push(i), c.user_id, project_id) == comments_score_spec(
            comments,
            issues,
            c.user_id,
            project_id,
        ) + 5,
{
    assert(comments.push(c).drop_last() =~= comments);
    assert(issues.push(i).drop_last() =~= issues);
    if c.target_type@ == "issue"@ {
        assert(c.target_type@ != "pr"@) by {
            reveal_strlit("issue");
            reveal_strlit("pr");
            assert("issue"@.len() != "pr"@.len());
        }
    }
}

proof fn lemma_comment_count_insert(
    comments: Seq<Comment>,
    pos: int,
    c: Comment,
    user_id: i64,
    project_id: Option<i64>,
    target: Seq<char>,
)
    requires
        0 <= pos <= comments.len(),
    ensures
        comment_count(comments.insert(pos, c), user_id, project_id, target) == comment_count(
            comments,
            user_id,
            project_id,
            target,
        ) + if c.user_id == user_id && in_scope(c.project_id, project_id) && c.target_type@ == target {
            1int
        } else {
            0int
        },
    decreases comments.len(),
{
    let t = comments.insert(pos, c);
    if pos == comments.len() {
        assert(t.drop_last() =~= comments);
    } else {
        assert(t.drop_last() =~= comments.drop_last().insert(pos, c));
        assert(t.last() == comments.last());
        lemma_comment_count_insert(comments.drop_last(), pos, c, user_id, project_id, target);
    }
}

proof fn lemma_issue_count_insert(issues: Seq<Issue>, pos: int, i: Issue, user_id: i64, project_id: Option<i64>)
    requires
        0 <= pos <= issues.len(),
    ensures
        issue_count(issues.insert(pos, i), user_id, project_id) == issue_count(issues, user_id, project_id)
            + if i.user_id == user_id && in_scope(i.project_id, project_id) {
            1int
        } else {
            0int
        },
    decreases issues.len(),
{
    let t = issues.insert(pos, i);
    if pos == issues.len() {
        assert(t.drop_last() =~= issues);
    } else {
        assert(t.drop_last() =~= issues.drop_last().insert(pos, i));
        assert(t.last() == issues.last());
        lemma_issue_count_insert(issues.drop_last(), pos, i, user_id, project_id);
    }
}

/// The points one comment earns its author: two on an issue, three on a
/// pull request.
pub open spec fn comment_points(c: Comment) -> int {
    if c.target_type@ == "issue"@ {
        2
    } else if c.target_type@ == "pr"@ {
        3
    } else {
        0
    }
}

/// One more comment, wherever it stands in the table, raises its author's
/// comments score by its points, globally and in its project, and changes
/// no other contributor's score and no other project's.
pub proof fn lemma_one_more_comment(
    comments: Seq<Comment>,
    issues: Seq<Issue>,
    pos: int,
    c: Comment,
    user_id: i64,
    project_id: Option<i64>,
)
    requires
        0 <= pos <= comments.len(),
    ensures
        comments_score_spec(comments.insert(pos, c), issues, user_id, project_id) == comments_score_spec(
            comments,
            issues,
            user_id,
            project_id,
        ) + if c.user_id == user_id && in_scope(c.project_id, project_id) {
            comment_points(c)
        } else {
            0
        },
{
    lemma_comment_count_insert(comments, pos, c, user_id, project_id, "issue"@);
    lemma_comment_count_insert(comments, pos, c, user_id, project_id, "pr"@);
    if c.target_type@ == "issue"@ {
        assert(c.target_type@ != "pr"@) by {
            reveal_strlit("issue");
            reveal_strlit("pr");
            assert("issue"@.len() != "pr"@.len());
        }
    }
}

/// One more issue, wherever it stands in the table, raises its author's
/// comments score by five, globally and in its project, and changes no
/// other contributor's score and no other project's.
pub proof fn lemma_one_more_issue(
    comments: Seq<Comment>,
    issues: Seq<Issue>,
    pos: int,
    i: Issue,
    user_id: i64,
    project_id: Option<i64>,
)
    requires
        0 <= pos <= issues.len(),
    ensures
        comments_score_spec(comments, issues.insert(pos, i), user_id, project_id) == comments_score_spec(
            comments,
            issues,
            user_id,
            project_id,
        ) + if i.user_id == user_id && in_scope(i.project_id, project_id) {
            5int
        } else {
            0int
        },
{
    lemma_issue_count_insert(issues, pos, i, user_id, project_id);
}

/// Recalculation yields one row per contributor and scope: where users and
/// projects have distinct ids, no two recalculated rows share a contributor
/// and a scope, so storing them by that key keeps every fresh value.
pub proof fn lemma_recalculated_rows_distinct(
    users: Seq<User>,
    projects: Seq<Project>,
    prs: Seq<PullRequest>,
    issues: Seq<Issue>,
    comments: Seq<Comment>,
    bonuses: Seq<BonusPoint>,
    rows: Seq<Seq<ScoreUpdate>>,
    a: int,
    b: int,
    c: int,
    d: int,
)
    requires
        forall|i: int, j: int| 0 <= i < j < users.len() ==> (#[trigger] users[i]).id != (#[trigger] users[j]).id,
        forall|i: int, j: int|
            0 <= i < j < projects.len() ==> (#[trigger] projects[i]).id != (#[trigger] projects[j]).id,
        rows.len() == users.len(),
        forall|x: int| 0 <= x < users.len() ==> #[trigger] rows[x].len() == projects.len() + 1,
        forall|x: int, y: int|
            0 <= x < users.len() && 0 <= y <= projects.len() ==> is_score_row(
                #[trigger] rows[x][y],
                prs,
                issues,
                comments,
                bonuses,
                users[x].id,
                scope_at(projects, y),
            ),
        0 <= a < users.len(),
        0 <= c < users.len(),
        0 <= b <= projects.len(),
        0 <= d <= projects.len(),
        a != c || b != d,
    ensures
        rows[a][b].user_id != rows[c][d].user_id || rows[a][b].project_id != rows[c][d].project_id,
{
    assert(is_score_row(rows[a][b], prs, issues, comments, bonuses, users[a].id, scope_at(projects, b)));
    assert(is_score_row(rows[c][d], prs, issues, comments, bonuses, users[c].id, scope_at(projects, d)));
    if a != c {
        if a < c {
            assert(users[a].id != users[c].id);
        } else {
            assert(users[c].id != users[a].id);
        }
    } else if b != 0 && d != 0 {
        if b < d {
            assert(projects[b - 1].id != projects[d - 1].id);
        } else {
            assert(projects[d - 1].id != projects[b - 1].id);
        }
    }
}

proof fn lemma_lines_sum_insert(prs: Seq<PullRequest>, pos: int, pr: PullRequest, user_id: i64, project_id: Option<i64>)
    requires
        0 <= pos <= prs.len(),
    ensures
        lines_sum(prs.insert(pos, pr), user_id, project_id) == lines_sum(prs, user_id, project_id) + if pr.user_id == user_id && (match project_id { Some(p) => pr.project_id == p, None => true }) && (pr.state@ == "merged"@ || pr.merged_at is Some) {
            2 * pr.additions + pr.deletions
        } else {
            0int
        },
    decreases prs.len(),
{
    let t = prs.insert(pos, pr);
    if pos == prs.len() {
        assert(t.drop_last() =~= prs);
    } else {
        assert(t.drop_last() =~= prs.drop_last().insert(pos, pr));
        assert(t.last() == prs.last());
        lemma_lines_sum_insert(prs.drop_last(), pos, pr, user_id, project_id);
    }
}

proof fn lemma_hot_lines_insert(prs: Seq<PullRequest>, pos: int, pr: PullRequest, project_id: i64, since: Seq<char>)
    requires
        0 <= pos <= prs.len(),
    ensures
        hot_lines_sum(prs.insert(pos, pr), project_id, since) == hot_lines_sum(prs, project_id, since) + if pr.project_id == project_id && (pr.state@ == "merged"@ || pr.merged_at is Some) && !text_lt(pr.created_at@, since) {
            2 * pr.additions + pr.deletions
        } else {
            0int
        },
    decreases prs.len(),
{
    let t = prs.insert(pos, pr);
    if pos == prs.len() {
        assert(t.drop_last() =~= prs);
    } else {
        assert(t.drop_last() =~= prs.drop_last().insert(pos, pr));
        assert(t.last() == prs.last());
        lemma_hot_lines_insert(prs.drop_last(), pos, pr, project_id, since);
    }
}

proof fn lemma_hot_comment_insert(comments: Seq<Comment>, pos: int, c: Comment, project_id: i64, since: Seq<char>)
    requires
        0 <= pos <= comments.len(),
    ensures
        hot_comment_count(comments.insert(pos, c), project_id, since) == hot_comment_count(comments, project_id, since) + if c.project_id == project_id && !text_lt(c.created_at@, since) {
            1int
        } else {
            0int
        },
    decreases comments.len(),
{
    let t = comments.insert(pos, c);
    if pos == comments.len() {
        assert(t.drop_last() =~= comments);
    } else {
        assert(t.drop_last() =~= comments.drop_last().insert(pos, c));
        assert(t.last() == comments.last());
        lemma_hot_comment_insert(comments.drop_last(), pos, c, project_id, since);
    }
}

proof fn lemma_hot_issue_insert(issues: Seq<Issue>, pos: int, i: Issue, project_id: i64, since: Seq<char>)
    requires
        0 <= pos <= issues.len(),
    ensures
        hot_issue_count(issues.insert(pos, i), project_id, since) == hot_issue_count(issues, project_id, since) + if i.project_id == project_id && !text_lt(i.created_at@, since) {
            1int
        } else {
            0int
        },
    decreases issues.len(),
{
    let t = issues.insert(pos, i);
    if pos == issues.len() {
        assert(t.drop_last() =~= issues);
    } else {
        assert(t.drop_last() =~= issues.drop_last().insert(pos, i));
        assert(t.last() == issues.last());
        lemma_hot_issue_insert(issues.drop_last(), pos, i, project_id, since);
    }
}

proof fn lemma_hot_bonus_insert(bonuses: Seq<BonusPoint>, pos: int, b: BonusPoint, project_id: i64, since: Seq<char>)
    requires
        0 <= pos <= bonuses.len(),
    ensures
        hot_bonus_sum(bonuses.insert(pos, b), project_id, since) == hot_bonus_sum(bonuses, project_id, since) + if b.project_id == Some(project_id) && !text_lt(b.created_at@, since) {
            b.points as int
        } else {
            0int
        },
    decreases bonuses.len(),
{
    let t = bonuses.insert(pos, b);
    if pos == bonuses.len() {
        assert(t.drop_last() =~= bonuses);
    } else {
        assert(t.drop_last() =~= bonuses.drop_last().insert(pos, b));
        assert(t.last() == bonuses.last());
        lemma_hot_bonus_insert(bonuses.drop_last(), pos, b, project_id, since);
    }
}

/// A pull request that is neither in the state `merged` nor carries a merge
/// time, wherever it stands in the table, changes no contributor's lines
/// score, globally or in any project.
pub proof fn lemma_unmerged_pr_adds_nothing(prs: Seq<PullRequest>, pos: int, pr: PullRequest, user_id: i64, project_id: Option<i64>)
    requires
        0 <= pos <= prs.len(),
        pr.state@ != "merged"@,
        pr.merged_at is None,
    ensures
        lines_sum(prs.insert(pos, pr), user_id, project_id) == lines_sum(prs, user_id, project_id),
        lines_score_spec(prs.insert(pos, pr), user_id, project_id) == lines_score_spec(prs, user_id, project_id),
{
    lemma_lines_sum_insert(prs, pos, pr, user_id, project_id);
}

/// A merged pull request (state `merged`, or a merge time), wherever it
/// stands in the table, adds two points per addition and one per deletion to
/// twice its author's lines score, globally and in its project, and nothing
/// to another contributor's or another project's.
pub proof fn lemma_merged_pr_adds_lines(prs: Seq<PullRequest>, pos: int, pr: PullRequest, user_id: i64, project_id: Option<i64>)
    requires
        0 <= pos <= prs.len(),
        pr.state@ == "merged"@ || pr.merged_at is Some,
    ensures
        lines_sum(prs.insert(pos, pr), user_id, project_id) == lines_sum(prs, user_id, project_id) + if pr.user_id
            == user_id && (match project_id {
            Some(p) => pr.project_id == p,
            None => true,
        }) {
            2 * pr.additions + pr.deletions
        } else {
            0
        },
{
    lemma_lines_sum_insert(prs, pos, pr, user_id, project_id);
}

/// One more issue raises a project's hotness by five where it belongs to the
/// project and was created no earlier than the window's start, and leaves it
/// unchanged otherwise.
pub proof fn lemma_hotness_one_more_issue(
    prs: Seq<PullRequest>,
    comments: Seq<Comment>,
    issues: Seq<Issue>,
    bonuses: Seq<BonusPoint>,
    project_id: i64,
    since: Seq<char>,
    pos: int,
    i: Issue,
)
    requires
        0 <= pos <= issues.len(),
    ensures
        hotness_spec(prs, comments, issues.insert(pos, i), bonuses, project_id, since) == hotness_spec(
            prs,
            comments,
            issues,
            bonuses,
            project_id,
            since,
        ) + if i.project_id == project_id && !text_lt(i.created_at@, since) {
            5int
        } else {
            0int
        },
{
    lemma_hot_issue_insert(issues, pos, i, project_id, since);
}

/// One more comment raises a project's hotness by three where it belongs to
/// the project and was made no earlier than the window's start, and leaves
/// it unchanged otherwise.
pub proof fn lemma_hotness_one_more_comment(
    prs: Seq<PullRequest>,
    comments: Seq<Comment>,
    issues: Seq<Issue>,
    bonuses: Seq<BonusPoint>,
    project_id: i64,
    since: Seq<char>,
    pos: int,
    c: Comment,
)
    requires
        0 <= pos <= comments.len(),
    ensures
        hotness_spec(prs, comments.insert(pos, c), issues, bonuses, project_id, since) == hotness_spec(
            prs,
            comments,
            issues,
            bonuses,
            project_id,
            since,
        ) + if c.project_id == project_id && !text_lt(c.created_at@, since) {
            3int
        } else {
            0int
        },
{
    lemma_hot_comment_insert(comments, pos, c, project_id, since);
}

/// One more bonus raises a project's hotness by its points where it was
/// awarded in the project no earlier than the window's start, and leaves it
/// unchanged otherwise (a bonus without a project counts toward no
/// project's hotness).
pub proof fn lemma_hotness_one_more_bonus(
    prs: Seq<PullRequest>,
    comments: Seq<Comment>,
    issues: Seq<Issue>,
    bonuses: Seq<BonusPoint>,
    project_id: i64,
    since: Seq<char>,
    pos: int,
    b: BonusPoint,
)
    requires
        0 <= pos <= bonuses.len(),
    ensures
        hotness_spec(prs, comments, issues, bonuses.insert(pos, b), project_id, since) == hotness_spec(
            prs,
            comments,
            issues,
            bonuses,
            project_id,
            since,
        ) + if b.project_id == Some(project_id) && !text_lt(b.created_at@, since) {
            b.points as int
        } else {
            0int
        },
{
    lemma_hot_bonus_insert(bonuses, pos, b, project_id, since);
}

/// A pull request of another project, one created before the window's
/// start, or one neither in the state `merged` nor carrying a merge time,
/// leaves a project's hotness unchanged.
pub proof fn lemma_hotness_ignores_pr(
    prs: Seq<PullRequest>,
    comments: Seq<Comment>,
    issues: Seq<Issue>,
    bonuses: Seq<BonusPoint>,
    project_id: i64,
    since: Seq<char>,
    pos: int,
    pr: PullRequest,
)
    requires
        0 <= pos <= prs.len(),
        pr.project_id != project_id || text_lt(pr.created_at@, since) || (pr.state@ != "merged"@
            && pr.merged_at is None),
    ensures
        hotness_spec(prs.insert(pos, pr), comments, issues, bonuses, project_id, since) == hotness_spec(
            prs,
            comments,
            issues,
            bonuses,
            project_id,
            since,
        ),
{
    lemma_hot_lines_insert(prs, pos, pr, project_id, since);
}

/// The lines score is half of twice itself: where the doubled sum is
/// non-negative and the score does not saturate, twice the score is the
/// doubled sum or one less (deletions count half a point, rounded down).
pub proof fn lemma_lines_score_halves(prs: Seq<PullRequest>, user_id: i64, project_id: Option<i64>)
    requires
        0 <= lines_sum(prs, user_id, project_id) <= 2 * i64_max(),
    ensures
        2 * lines_score_spec(prs, user_id, project_id) <= lines_sum(prs, user_id, project_id)
            <= 2 * lines_score_spec(prs, user_id, project_id) + 1,
{
}

} // verus!
