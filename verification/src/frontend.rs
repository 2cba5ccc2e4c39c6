//! The web front end's records and its decisions that do not depend on the
//! page being drawn.
use vstd::prelude::*;
use crate::models::clone_opt_text;
use crate::scoring::fits_i64;
use crate::text::{dec_digits, signed_dec, to_decimal, to_decimal_signed};

verus! {

/// A contributor as the web front end receives it.
#[derive(Debug, PartialEq)]
pub struct UserResponse {
    pub id: i64,
    pub github_username: String,
    pub display_name: Option<String>,
    pub avatar_url: Option<String>,
    pub is_maintainer: bool,
    pub total_score: i64,
}

impl Clone for UserResponse {
    fn clone(&self) -> (r: Self)
        ensures
            r == *self,
    {
        UserResponse {
            id: self.id,
            github_username: self.github_username.clone(),
            display_name: clone_opt_text(&self.display_name),
            avatar_url: clone_opt_text(&self.avatar_url),
            is_maintainer: self.is_maintainer,
            total_score: self.total_score,
        }
    }
}

/// A tracked repository as the web front end receives it, with its hotness (zero where the answer has none).
#[derive(Debug, PartialEq)]
pub struct Project {
    pub id: i64,
    pub owner: String,
    pub repo: String,
    pub description: Option<String>,
    pub stars: i64,
    pub forks: i64,
    pub open_issues: i64,
    pub language: Option<String>,
    pub last_synced_at: Option<String>,
    pub created_at: String,
    pub hotness: i64,
}

impl Clone for Project {
    fn clone(&self) -> (r: Self)
        ensures
            r == *self,
    {
        Project {
            id: self.id,
            owner: self.owner.clone(),
            repo: self.repo.clone(),
            description: clone_opt_text(&self.description),
            stars: self.stars,
            forks: self.forks,
            open_issues: self.open_issues,
            language: clone_opt_text(&self.language),
            last_synced_at: clone_opt_text(&self.last_synced_at),
            created_at: self.created_at.clone(),
            hotness: self.hotness,
        }
    }
}

/// A leaderboard row as the web front end receives it.
#[derive(Debug, PartialEq)]
pub struct LeaderboardEntry {
    pub rank: u32,
    pub user_id: i64,
    pub github_username: String,
    pub display_name: Option<String>,
    pub avatar_url: Option<String>,
    pub lines_changed_score: i64,
    pub comments_score: i64,
    pub bonus_score: i64,
    pub total_score: i64,
}

impl Clone for LeaderboardEntry {
    fn clone(&self) -> (r: Self)
        ensures
            r == *self,
    {
        LeaderboardEntry {
            rank: self.rank,
            user_id: self.user_id,
            github_username: self.github_username.clone(),
            display_name: clone_opt_text(&self.display_name),
            avatar_url: clone_opt_text(&self.avatar_url),
            lines_changed_score: self.lines_changed_score,
            comments_score: self.comments_score,
            bonus_score: self.bonus_score,
            total_score: self.total_score,
        }
    }
}

/// A score row as the web front end receives it.
#[derive(Debug, PartialEq)]
pub struct Score {
    pub id: i64,
    pub user_id: i64,
    pub project_id: Option<i64>,
    pub lines_changed_score: i64,
    pub comments_score: i64,
    pub bonus_score: i64,
    pub total_score: i64,
    pub updated_at: String,
}

impl Clone for Score {
    fn clone(&self) -> (r: Self)
        ensures
            r == *self,
    {
        Score {
            id: self.id,
            user_id: self.user_id,
            project_id: self.project_id,
            lines_changed_score: self.lines_changed_score,
            comments_score: self.comments_score,
            bonus_score: self.bonus_score,
            total_score: self.total_score,
            updated_at: self.updated_at.clone(),
        }
    }
}

/// An award of bonus points as the web front end receives it.
#[derive(Debug, PartialEq)]
pub struct BonusPoint {
    pub id: i64,
    pub user_id: i64,
    pub project_id: Option<i64>,
    pub points: i64,
    pub reason: String,
    pub granted_by: String,
    pub created_at: String,
}

impl Clone for BonusPoint {
    fn clone(&self) -> (r: Self)
        ensures
            r == *self,
    {
        BonusPoint {
            id: self.id,
            user_id: self.user_id,
            project_id: self.project_id,
            points: self.points,
            reason: self.reason.clone(),
            granted_by: self.granted_by.clone(),
            created_at: self.created_at.clone(),
        }
    }
}

/// A pull request as the web front end receives it.
#[derive(Debug, PartialEq)]
pub struct PullRequest {
    pub id: i64,
    pub github_id: i64,
    pub project_id: i64,
    pub user_id: i64,
    pub title: String,
    pub state: String,
    pub additions: i64,
    pub deletions: i64,
    pub changed_files: i64,
    pub comments_count: i64,
    pub created_at: String,
    pub merged_at: Option<String>,
}

impl Clone for PullRequest {
    fn clone(&self) -> (r: Self)
        ensures
            r == *self,
    {
        PullRequest {
            id: self.id,
            github_id: self.github_id,
            project_id: self.project_id,
            user_id: self.user_id,
            title: self.title.clone(),
            state: self.state.clone(),
            additions: self.additions,
            deletions: self.deletions,
            changed_files: self.changed_files,
            comments_count: self.comments_count,
            created_at: self.created_at.clone(),
            merged_at: clone_opt_text(&self.merged_at),
        }
    }
}

/// An issue as the web front end receives it.
#[derive(Debug, PartialEq)]
pub struct Issue {
    pub id: i64,
    pub github_id: i64,
    pub project_id: i64,
    pub user_id: i64,
    pub title: String,
    pub state: String,
    pub comments_count: i64,
    pub created_at: String,
    pub closed_at: Option<String>,
}

impl Clone for Issue {
    fn clone(&self) -> (r: Self)
        ensures
            r == *self,
    {
        Issue {
            id: self.id,
            github_id: self.github_id,
            project_id: self.project_id,
            user_id: self.user_id,
            title: self.title.clone(),
            state: self.state.clone(),
            comments_count: self.comments_count,
            created_at: self.created_at.clone(),
            closed_at: clone_opt_text(&self.closed_at),
        }
    }
}

/// When the last synchronisation finished, as the web front end receives it.
#[derive(Debug, PartialEq)]
pub struct SyncStatus {
    pub last_sync: Option<String>,
}

impl Clone for SyncStatus {
    fn clone(&self) -> (r: Self)
        ensures
            r == *self,
    {
        SyncStatus {
            last_sync: clone_opt_text(&self.last_sync),
        }
    }
}

/// The request by which the web front end binds a GitHub account.
#[derive(Debug, PartialEq)]
pub struct CreateUserRequest {
    pub github_username: String,
    pub github_pat: String,
    pub display_name: Option<String>,
}

impl Clone for CreateUserRequest {
    fn clone(&self) -> (r: Self)
        ensures
            r == *self,
    {
        CreateUserRequest {
            github_username: self.github_username.clone(),
            github_pat: self.github_pat.clone(),
            display_name: clone_opt_text(&self.display_name),
        }
    }
}

/// The request by which the web front end starts tracking a repository.
#[derive(Debug, PartialEq)]
pub struct AddProjectRequest {
    pub owner: String,
    pub repo: String,
}

impl Clone for AddProjectRequest {
    fn clone(&self) -> (r: Self)
        ensures
            r == *self,
    {
        AddProjectRequest {
            owner: self.owner.clone(),
            repo: self.repo.clone(),
        }
    }
}

/// The request by which the web front end awards bonus points.
#[derive(Debug, PartialEq)]
pub struct BonusRequest {
    pub user_id: i64,
    pub project_id: Option<i64>,
    pub points: i64,
    pub reason: String,
}

impl Clone for BonusRequest {
    fn clone(&self) -> (r: Self)
        ensures
            r == *self,
    {
        BonusRequest {
            user_id: self.user_id,
            project_id: self.project_id,
            points: self.points,
            reason: self.reason.clone(),
        }
    }
}

/// The request by which the web front end logs in.
#[derive(Debug, PartialEq)]
pub struct LoginRequest {
    pub username: String,
    pub password: String,
}

impl Clone for LoginRequest {
    fn clone(&self) -> (r: Self)
        ensures
            r == *self,
    {
        LoginRequest {
            username: self.username.clone(),
            password: self.password.clone(),
        }
    }
}

/// The answer to a login as the web front end receives it.
#[derive(Debug, PartialEq)]
pub struct LoginResponse {
    pub token: String,
    pub user_id: i64,
    pub is_maintainer: bool,
}

impl Clone for LoginResponse {
    fn clone(&self) -> (r: Self)
        ensures
            r == *self,
    {
        LoginResponse {
            token: self.token.clone(),
            user_id: self.user_id,
            is_maintainer: self.is_maintainer,
        }
    }
}

/// The name shown for a contributor: the display name where set, else the
/// GitHub login.
pub fn shown_name(display_name: &Option<String>, login: &String) -> (s: String)
    ensures
        s@ == (match display_name {
            Some(n) => n@,
            None => login@,
        }),
{
    match display_name {
        Some(n) => n.clone(),
        None => login.clone(),
    }
}

/// Whether a leaderboard rank is among the first three.
pub fn is_top_rank(rank: u32) -> (r: bool)
    ensures
        r == (rank <= 3),
{
    rank <= 3
}

/// Whether a character is an ASCII decimal digit.
pub open spec fn is_digit(c: char) -> bool {
    48 <= (c as int) <= 57
}

/// The value of a run of decimal digits.
pub open spec fn digits_value(s: Seq<char>) -> int
    decreases s.len(),
{
    if s.len() == 0 {
        0
    } else {
        digits_value(s.drop_last()) * 10 + ((s.last() as int) - 48)
    }
}

/// The digits after an optional sign (`-` is code 45, `+` code 43).
pub open spec fn unsigned_part(s: Seq<char>) -> Seq<char> {
    if s.len() > 0 && ((s[0] as int) == 45 || (s[0] as int) == 43) {
        s.drop_first()
    } else {
        s
    }
}

/// The integer that a text spells in decimal, as `i64` parsing reads it: an
/// optional `+` or `-`, then one or more ASCII digits, nothing else, and a
/// value that fits in `i64`.
pub open spec fn parse_i64_spec(s: Seq<char>) -> Option<int> {
    let body = unsigned_part(s);
    let negative = s.len() > 0 && (s[0] as int) == 45;
    if body.len() == 0 || !(forall|i: int| 0 <= i < body.len() ==> is_digit(#[trigger] body[i])) {
        None
    } else {
        let v = if negative { -digits_value(body) } else { digits_value(body) };
        if fits_i64(v) {
            Some(v)
        } else {
            None
        }
    }
}

proof fn lemma_digits_value_nonneg(s: Seq<char>)
    requires
        forall|i: int| 0 <= i < s.len() ==> is_digit(#[trigger] s[i]),
    ensures
        digits_value(s) >= 0,
    decreases s.len(),
{
    if s.len() > 0 {
        lemma_digits_value_nonneg(s.drop_last());
    }
}

/// The integer that a text spells in decimal; `None` where it spells none
/// that fits in `i64`.
pub fn parse_i64(text: &str) -> (r: Option<i64>)
    ensures
        r matches Some(v) ==> parse_i64_spec(text@) == Some(v as int),
        r is None ==> parse_i64_spec(text@) is None,
{
    let n = text.unicode_len();
    let mut start: usize = 0;
    let mut negative = false;
    if n > 0 {
        let c = text.get_char(0);
        let code = c as u32;
        if code == 45 {
            negative = true;
            start = 1;
        } else if code == 43 {
            start = 1;
        }
    }
    let ghost body = unsigned_part(text@);
    proof {
        if start == 1 {
            assert(body =~= text@.subrange(1, n as int));
        } else {
            assert(body =~= text@.subrange(0, n as int));
        }
    }
    if start == n {
        return None;
    }
    let mut acc: i128 = 0;
    let mut big = false;
    let mut i: usize = start;
    while i < n
        invariant
            n == text@.len(),
            start <= i <= n,
            body == text@.subrange(start as int, n as int),
            body == unsigned_part(text@),
            negative == (text@.len() > 0 && (text@[0] as int) == 45),
            forall|k: int| 0 <= k < i - start ==> is_digit(#[trigger] body[k]),
            !big ==> acc == digits_value(body.take(i - start)),
            !big ==> 0 <= acc <= 0x8000_0000_0000_0000,
            big ==> digits_value(body.take(i - start)) > 0x8000_0000_0000_0000,
        decreases n - i,
    {
        let c = text.get_char(i);
        let code = c as u32;
        if code < 48 || code > 57 {
            assert(!is_digit(body[i - start]));
            return None;
        }
        proof {
            assert(body.take(i - start + 1).drop_last() =~= body.take(i - start));
            assert(body.take(i - start + 1).last() == c);
        }
        if !big {
            acc = acc * 10 + (code as i128 - 48);
            if acc > 0x8000_0000_0000_0000i128 {
                big = true;
            }
        }
        i = i + 1;
    }
    proof {
        assert(body.take(n - start) =~= body);
        lemma_digits_value_nonneg(body);
    }
    if big {
        return None;
    }
    let v: i128 = if negative { -acc } else { acc };
    if v < -0x8000_0000_0000_0000i128 || v > 0x7fff_ffff_ffff_ffffi128 {
        None
    } else {
        Some(v as i64)
    }
}

/// The award that the bonus form sends: to the selected contributor, with
/// the points typed (zero where they spell no integer), the reason, and no
/// project; `None` (the form asks to be completed) where the points are zero
/// or no contributor is selected.
pub fn bonus_request(selected_user: i64, points_text: &str, reason: &str) -> (r: Option<BonusRequest>)
    ensures
        ({
            let pts = match parse_i64_spec(points_text@) {
                Some(v) => v,
                None => 0,
            };
            if pts == 0 || selected_user == 0 {
                r is None
            } else {
                r matches Some(b) && b.user_id == selected_user && b.project_id is None && b.points == pts
                    && b.reason@ == reason@
            }
        }),
{
    let pts = match parse_i64(points_text) {
        Some(v) => v,
        None => 0,
    };
    if pts == 0 || selected_user == 0 {
        return None;
    }
    Some(BonusRequest { user_id: selected_user, project_id: None, points: pts, reason: String::from_str(reason) })
}

/// The token that the admin page keeps after a login: the session's token
/// where the account is a maintainer; `None` (the page refuses) otherwise.
pub fn maintainer_token(resp: &LoginResponse) -> (r: Option<String>)
    ensures
        resp.is_maintainer ==> r == Some(resp.token),
        !resp.is_maintainer ==> r is None,
{
    if resp.is_maintainer {
        Some(resp.token.clone())
    } else {
        None
    }
}

/// The address of a leaderboard request: `/api/v1/leaderboard?limit={limit}`,
/// then `&project_id={id}` for a project's leaderboard.
pub fn leaderboard_url(project_id: Option<i64>, limit: u32) -> (u: String)
    ensures
        u@ == "/api/v1/leaderboard?limit="@ + dec_digits(limit as nat) + (match project_id {
            Some(pid) => "&project_id="@ + signed_dec(pid as int),
            None => Seq::empty(),
        }),
{
    let mut u = String::from_str("/api/v1/leaderboard?limit=");
    let l = to_decimal(limit as u128);
    u.append(l.as_str());
    match project_id {
        Some(pid) => {
            let before = u.clone();
            u.append("&project_id=");
            let p = to_decimal_signed(pid);
            u.append(p.as_str());
            assert(u@ =~= before@ + ("&project_id="@ + signed_dec(pid as int)));
        },
        None => {
            assert(u@ + Seq::<char>::empty() =~= u@);
        },
    }
    u
}

/// The display name that the settings form sends: `None` where the field is
/// left empty.
pub fn optional_display_name(text: &str) -> (r: Option<String>)
    ensures
        text@.len() == 0 ==> r is None,
        text@.len() > 0 ==> (r matches Some(n) && n@ == text@),
{
    if text.unicode_len() == 0 {
        None
    } else {
        Some(String::from_str(text))
    }
}

/// The project that the leaderboard filter selects: the value chosen, where
/// it spells a non-zero integer; `None` (every project) otherwise.
pub fn project_filter(value: &str) -> (r: Option<i64>)
    ensures
        ({
            let v = match parse_i64_spec(value@) {
                Some(v) => v,
                None => 0,
            };
            if v == 0 {
                r is None
            } else {
                r == Some(v as i64)
            }
        }),
{
    let v = match parse_i64(value) {
        Some(v) => v,
        None => 0,
    };
    if v == 0 {
        None
    } else {
        Some(v)
    }
}

/// The words that open the message of a failed request.
pub open spec fn error_prefix() -> Seq<char> {
    "错误: "@
}

/// The message a form shows once its request is answered: `done` where it
/// succeeded, else the error after `错误: `.
pub fn outcome_message(done: &str, outcome: &Result<(), String>) -> (m: String)
    ensures
        outcome is Ok ==> m@ == done@,
        outcome matches Err(e) ==> m@ == error_prefix() + e@,
{
    match outcome {
        Ok(()) => String::from_str(done),
        Err(e) => {
            let mut m = String::from_str("错误: ");
            m.append(e.as_str());
            m
        },
    }
}

/// The words that open the message of a failed login.
pub open spec fn login_failed_prefix() -> Seq<char> {
    "登录失败: "@
}

/// The message shown to an account that is not a maintainer.
pub open spec fn not_maintainer_message() -> Seq<char> {
    "该用户不是维护者，无权操作"@
}

/// The message the admin page shows after a login: none where a maintainer
/// logged in, a refusal for another account, else the error after
/// `登录失败: `.
pub fn login_message(outcome: &Result<LoginResponse, String>) -> (m: String)
    ensures
        outcome matches Ok(resp) ==> (resp.is_maintainer ==> m@.len() == 0) && (!resp.is_maintainer ==> m@
            == not_maintainer_message()),
        outcome matches Err(e) ==> m@ == login_failed_prefix() + e@,
{
    match outcome {
        Ok(resp) => {
            if resp.is_maintainer {
                String::new()
            } else {
                String::from_str("该用户不是维护者，无权操作")
            }
        },
        Err(e) => {
            let mut m = String::from_str("登录失败: ");
            m.append(e.as_str());
            m
        },
    }
}

} // verus!
