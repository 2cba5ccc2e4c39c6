//! Reading the platform's tables.
//!
//! Each function takes the rows of the tables it reads, in table order, and
//! answers as the corresponding query of the platform does: selection,
//! joining, ordering and paging are done here.
use vstd::prelude::*;
use crate::models::{BonusPoint, Comment, Issue, Project, PullRequest, Score, Session, SyncLogEntry, UpdateUserRequest, User, clone_opt_text};
use crate::order::{
    arranged, is_key_order, is_text_order, key_order, lemma_arranged_all, lemma_arranged_selection,
    lemma_key_order_sorted, lemma_text_order_sorted, text_order,
};
use crate::rows::{
    first_where, lemma_filter_all, lemma_filter_step, lemma_first_where_absent, lemma_first_where_facts,
    lemma_first_where_found, lemma_first_where_none, lemma_first_where_push_fresh,
};
use crate::scoring::in_scope;
use crate::text::{text_eq, text_less, text_lt};

verus! {

/// The `User` rows at the positions that `perm` lists, in that order.
pub fn arrange_users(rows: &Vec<User>, perm: &Vec<usize>) -> (r: Vec<User>)
    requires
        forall|k: int| 0 <= k < perm.len() ==> perm[k] < rows.len(),
    ensures
        r@ == arranged(rows@, perm@),
{
    let mut r: Vec<User> = Vec::new();
    let mut k: usize = 0;
    while k < perm.len()
        invariant
            k <= perm.len(),
            forall|j: int| 0 <= j < perm.len() ==> perm[j] < rows.len(),
            r@ == arranged(rows@, perm@.take(k as int)),
        decreases perm.len() - k,
    {
        let row = rows[perm[k]].clone();
        r.push(row);
        k = k + 1;
        assert(arranged(rows@, perm@.take(k as int)) =~= arranged(rows@, perm@.take(k - 1)).push(rows@[perm@[k - 1] as int]));
    }
    assert(perm@.take(perm.len() as int) =~= perm@);
    r
}

/// The `Project` rows at the positions that `perm` lists, in that order.
pub fn arrange_projects(rows: &Vec<Project>, perm: &Vec<usize>) -> (r: Vec<Project>)
    requires
        forall|k: int| 0 <= k < perm.len() ==> perm[k] < rows.len(),
    ensures
        r@ == arranged(rows@, perm@),
{
    let mut r: Vec<Project> = Vec::new();
    let mut k: usize = 0;
    while k < perm.len()
        invariant
            k <= perm.len(),
            forall|j: int| 0 <= j < perm.len() ==> perm[j] < rows.len(),
            r@ == arranged(rows@, perm@.take(k as int)),
        decreases perm.len() - k,
    {
        let row = rows[perm[k]].clone();
        r.push(row);
        k = k + 1;
        assert(arranged(rows@, perm@.take(k as int)) =~= arranged(rows@, perm@.take(k - 1)).push(rows@[perm@[k - 1] as int]));
    }
    assert(perm@.take(perm.len() as int) =~= perm@);
    r
}

/// The `PullRequest` rows at the positions that `perm` lists, in that order.
pub fn arrange_pullrequests(rows: &Vec<PullRequest>, perm: &Vec<usize>) -> (r: Vec<PullRequest>)
    requires
        forall|k: int| 0 <= k < perm.len() ==> perm[k] < rows.len(),
    ensures
        r@ == arranged(rows@, perm@),
{
    let mut r: Vec<PullRequest> = Vec::new();
    let mut k: usize = 0;
    while k < perm.len()
        invariant
            k <= perm.len(),
            forall|j: int| 0 <= j < perm.len() ==> perm[j] < rows.len(),
            r@ == arranged(rows@, perm@.take(k as int)),
        decreases perm.len() - k,
    {
        let row = rows[perm[k]].clone();
        r.push(row);
        k = k + 1;
        assert(arranged(rows@, perm@.take(k as int)) =~= arranged(rows@, perm@.take(k - 1)).push(rows@[perm@[k - 1] as int]));
    }
    assert(perm@.take(perm.len() as int) =~= perm@);
    r
}

/// The `Issue` rows at the positions that `perm` lists, in that order.
pub fn arrange_issues(rows: &Vec<Issue>, perm: &Vec<usize>) -> (r: Vec<Issue>)
    requires
        forall|k: int| 0 <= k < perm.len() ==> perm[k] < rows.len(),
    ensures
        r@ == arranged(rows@, perm@),
{
    let mut r: Vec<Issue> = Vec::new();
    let mut k: usize = 0;
    while k < perm.len()
        invariant
            k <= perm.len(),
            forall|j: int| 0 <= j < perm.len() ==> perm[j] < rows.len(),
            r@ == arranged(rows@, perm@.take(k as int)),
        decreases perm.len() - k,
    {
        let row = rows[perm[k]].clone();
        r.push(row);
        k = k + 1;
        assert(arranged(rows@, perm@.take(k as int)) =~= arranged(rows@, perm@.take(k - 1)).push(rows@[perm@[k - 1] as int]));
    }
    assert(perm@.take(perm.len() as int) =~= perm@);
    r
}

/// The `Comment` rows at the positions that `perm` lists, in that order.
pub fn arrange_comments(rows: &Vec<Comment>, perm: &Vec<usize>) -> (r: Vec<Comment>)
    requires
        forall|k: int| 0 <= k < perm.len() ==> perm[k] < rows.len(),
    ensures
        r@ == arranged(rows@, perm@),
{
    let mut r: Vec<Comment> = Vec::new();
    let mut k: usize = 0;
    while k < perm.len()
        invariant
            k <= perm.len(),
            forall|j: int| 0 <= j < perm.len() ==> perm[j] < rows.len(),
            r@ == arranged(rows@, perm@.take(k as int)),
        decreases perm.len() - k,
    {
        let row = rows[perm[k]].clone();
        r.push(row);
        k = k + 1;
        assert(arranged(rows@, perm@.take(k as int)) =~= arranged(rows@, perm@.take(k - 1)).push(rows@[perm@[k - 1] as int]));
    }
    assert(perm@.take(perm.len() as int) =~= perm@);
    r
}

/// The `BonusPoint` rows at the positions that `perm` lists, in that order.
pub fn arrange_bonuspoints(rows: &Vec<BonusPoint>, perm: &Vec<usize>) -> (r: Vec<BonusPoint>)
    requires
        forall|k: int| 0 <= k < perm.len() ==> perm[k] < rows.len(),
    ensures
        r@ == arranged(rows@, perm@),
{
    let mut r: Vec<BonusPoint> = Vec::new();
    let mut k: usize = 0;
    while k < perm.len()
        invariant
            k <= perm.len(),
            forall|j: int| 0 <= j < perm.len() ==> perm[j] < rows.len(),
            r@ == arranged(rows@, perm@.take(k as int)),
        decreases perm.len() - k,
    {
        let row = rows[perm[k]].clone();
        r.push(row);
        k = k + 1;
        assert(arranged(rows@, perm@.take(k as int)) =~= arranged(rows@, perm@.take(k - 1)).push(rows@[perm@[k - 1] as int]));
    }
    assert(perm@.take(perm.len() as int) =~= perm@);
    r
}

/// Whether a row of the pull requests table belongs to a contributor, in one
/// project (`Some`) or in any.
pub open spec fn pr_of(user_id: i64, project_id: Option<i64>) -> spec_fn(PullRequest) -> bool {
    |r: PullRequest| r.user_id == user_id && in_scope(r.project_id, project_id)
}

/// The creation times of rows of the pull requests table.
pub open spec fn prs_dates(rows: Seq<PullRequest>) -> Seq<Seq<char>> {
    rows.map_values(|r: PullRequest| r.created_at@)
}

/// The pull requests of a contributor, in one project or in all, latest first;
/// rows created at the same time keep their table order.
pub fn get_prs_by_user(prs: &Vec<PullRequest>, user_id: i64, project_id: Option<i64>) -> (r: Vec<PullRequest>)
    ensures
        exists|perm: Seq<usize>|
            is_text_order(prs_dates(prs@.filter(pr_of(user_id, project_id))), perm)
                && r@ == arranged(prs@.filter(pr_of(user_id, project_id)), perm),
        forall|k: int|
            0 <= k < r.len() ==> (#[trigger] r@[k]).user_id == user_id && (match project_id {
                Some(p) => r@[k].project_id == p,
                None => true,
            }) && prs@.contains(r@[k]),
        forall|i: int|
            0 <= i < prs.len() && (#[trigger] prs@[i]).user_id == user_id && (match project_id {
                Some(p) => prs@[i].project_id == p,
                None => true,
            }) ==> r@.contains(prs@[i]),
        forall|k: int, j: int|
            0 <= k < j < r.len() ==> !text_lt((#[trigger] r@[k]).created_at@, (#[trigger] r@[j]).created_at@),
{
    let ghost pred = pr_of(user_id, project_id);
    let mut sel: Vec<PullRequest> = Vec::new();
    let mut i: usize = 0;
    while i < prs.len()
        invariant
            i <= prs.len(),
            pred == pr_of(user_id, project_id),
            sel@ == prs@.take(i as int).filter(pred),
        decreases prs.len() - i,
    {
        proof {
            lemma_filter_step(prs@, pred, i as int);
        }
        let scoped = match project_id {
            Some(pid) => prs[i].project_id == pid,
            None => true,
        };
        if prs[i].user_id == user_id && scoped {
            sel.push(prs[i].clone());
        }
        i = i + 1;
    }
    proof {
        lemma_filter_all(prs@, pred);
    }
    let mut keys: Vec<String> = Vec::new();
    let mut j: usize = 0;
    while j < sel.len()
        invariant
            j <= sel.len(),
            keys@.len() == j,
            forall|k: int| 0 <= k < j ==> #[trigger] keys@[k]@ == sel@[k].created_at@,
        decreases sel.len() - j,
    {
        keys.push(sel[j].created_at.clone());
        j = j + 1;
    }
    assert(keys@.map_values(|s: String| s@) =~= prs_dates(sel@));
    let perm = text_order(&keys);
    let r = arrange_pullrequests(&sel, &perm);
    proof {
        let ghost pred = pr_of(user_id, project_id);
        let ghost chosen = prs@.filter(pred);
        lemma_arranged_selection(prs@, pred, perm@);
        assert forall|k: int, j: int| 0 <= k < j < r.len() implies !text_lt(
            (#[trigger] r@[k]).created_at@,
            (#[trigger] r@[j]).created_at@,
        ) by {
            lemma_text_order_sorted(prs_dates(chosen), perm@, k, j);
        }
    }
    r
}

/// Whether a row of the issues table belongs to a contributor, in one
/// project (`Some`) or in any.
pub open spec fn issue_of(user_id: i64, project_id: Option<i64>) -> spec_fn(Issue) -> bool {
    |r: Issue| r.user_id == user_id && in_scope(r.project_id, project_id)
}

/// The creation times of rows of the issues table.
pub open spec fn issues_dates(rows: Seq<Issue>) -> Seq<Seq<char>> {
    rows.map_values(|r: Issue| r.created_at@)
}

/// The issues of a contributor, in one project or in all, latest first;
/// rows created at the same time keep their table order.
pub fn get_issues_by_user(issues: &Vec<Issue>, user_id: i64, project_id: Option<i64>) -> (r: Vec<Issue>)
    ensures
        exists|perm: Seq<usize>|
            is_text_order(issues_dates(issues@.filter(issue_of(user_id, project_id))), perm)
                && r@ == arranged(issues@.filter(issue_of(user_id, project_id)), perm),
        forall|k: int|
            0 <= k < r.len() ==> (#[trigger] r@[k]).user_id == user_id && (match project_id {
                Some(p) => r@[k].project_id == p,
                None => true,
            }) && issues@.contains(r@[k]),
        forall|i: int|
            0 <= i < issues.len() && (#[trigger] issues@[i]).user_id == user_id && (match project_id {
                Some(p) => issues@[i].project_id == p,
                None => true,
            }) ==> r@.contains(issues@[i]),
        forall|k: int, j: int|
            0 <= k < j < r.len() ==> !text_lt((#[trigger] r@[k]).created_at@, (#[trigger] r@[j]).created_at@),
{
    let ghost pred = issue_of(user_id, project_id);
    let mut sel: Vec<Issue> = Vec::new();
    let mut i: usize = 0;
    while i < issues.len()
        invariant
            i <= issues.len(),
            pred == issue_of(user_id, project_id),
            sel@ == issues@.take(i as int).filter(pred),
        decreases issues.len() - i,
    {
        proof {
            lemma_filter_step(issues@, pred, i as int);
        }
        let scoped = match project_id {
            Some(pid) => issues[i].project_id == pid,
            None => true,
        };
        if issues[i].user_id == user_id && scoped {
            sel.push(issues[i].clone());
        }
        i = i + 1;
    }
    proof {
        lemma_filter_all(issues@, pred);
    }
    let mut keys: Vec<String> = Vec::new();
    let mut j: usize = 0;
    while j < sel.len()
        invariant
            j <= sel.len(),
            keys@.len() == j,
            forall|k: int| 0 <= k < j ==> #[trigger] keys@[k]@ == sel@[k].created_at@,
        decreases sel.len() - j,
    {
        keys.push(sel[j].created_at.clone());
        j = j + 1;
    }
    assert(keys@.map_values(|s: String| s@) =~= issues_dates(sel@));
    let perm = text_order(&keys);
    let r = arrange_issues(&sel, &perm);
    proof {
        let ghost pred = issue_of(user_id, project_id);
        let ghost chosen = issues@.filter(pred);
        lemma_arranged_selection(issues@, pred, perm@);
        assert forall|k: int, j: int| 0 <= k < j < r.len() implies !text_lt(
            (#[trigger] r@[k]).created_at@,
            (#[trigger] r@[j]).created_at@,
        ) by {
            lemma_text_order_sorted(issues_dates(chosen), perm@, k, j);
        }
    }
    r
}

/// Whether a row of the comments table belongs to a contributor, in one
/// project (`Some`) or in any.
pub open spec fn comment_of(user_id: i64, project_id: Option<i64>) -> spec_fn(Comment) -> bool {
    |r: Comment| r.user_id == user_id && in_scope(r.project_id, project_id)
}

/// The creation times of rows of the comments table.
pub open spec fn comments_dates(rows: Seq<Comment>) -> Seq<Seq<char>> {
    rows.map_values(|r: Comment| r.created_at@)
}

/// The comments of a contributor, in one project or in all, latest first;
/// rows created at the same time keep their table order.
pub fn get_comments_by_user(comments: &Vec<Comment>, user_id: i64, project_id: Option<i64>) -> (r: Vec<Comment>)
    ensures
        exists|perm: Seq<usize>|
            is_text_order(comments_dates(comments@.filter(comment_of(user_id, project_id))), perm)
                && r@ == arranged(comments@.filter(comment_of(user_id, project_id)), perm),
        forall|k: int|
            0 <= k < r.len() ==> (#[trigger] r@[k]).user_id == user_id && (match project_id {
                Some(p) => r@[k].project_id == p,
                None => true,
            }) && comments@.contains(r@[k]),
        forall|i: int|
            0 <= i < comments.len() && (#[trigger] comments@[i]).user_id == user_id && (match project_id {
                Some(p) => comments@[i].project_id == p,
                None => true,
            }) ==> r@.contains(comments@[i]),
        forall|k: int, j: int|
            0 <= k < j < r.len() ==> !text_lt((#[trigger] r@[k]).created_at@, (#[trigger] r@[j]).created_at@),
{
    let ghost pred = comment_of(user_id, project_id);
    let mut sel: Vec<Comment> = Vec::new();
    let mut i: usize = 0;
    while i < comments.len()
        invariant
            i <= comments.len(),
            pred == comment_of(user_id, project_id),
            sel@ == comments@.take(i as int).filter(pred),
        decreases comments.len() - i,
    {
        proof {
            lemma_filter_step(comments@, pred, i as int);
        }
        let scoped = match project_id {
            Some(pid) => comments[i].project_id == pid,
            None => true,
        };
        if comments[i].user_id == user_id && scoped {
            sel.push(comments[i].clone());
        }
        i = i + 1;
    }
    proof {
        lemma_filter_all(comments@, pred);
    }
    let mut keys: Vec<String> = Vec::new();
    let mut j: usize = 0;
    while j < sel.len()
        invariant
            j <= sel.len(),
            keys@.len() == j,
            forall|k: int| 0 <= k < j ==> #[trigger] keys@[k]@ == sel@[k].created_at@,
        decreases sel.len() - j,
    {
        keys.push(sel[j].created_at.clone());
        j = j + 1;
    }
    assert(keys@.map_values(|s: String| s@) =~= comments_dates(sel@));
    let perm = text_order(&keys);
    let r = arrange_comments(&sel, &perm);
    proof {
        let ghost pred = comment_of(user_id, project_id);
        let ghost chosen = comments@.filter(pred);
        lemma_arranged_selection(comments@, pred, perm@);
        assert forall|k: int, j: int| 0 <= k < j < r.len() implies !text_lt(
            (#[trigger] r@[k]).created_at@,
            (#[trigger] r@[j]).created_at@,
        ) by {
            lemma_text_order_sorted(comments_dates(chosen), perm@, k, j);
        }
    }
    r
}

/// Whether a bonus was awarded to a contributor.
pub open spec fn bonus_of(user_id: i64) -> spec_fn(BonusPoint) -> bool {
    |b: BonusPoint| b.user_id == user_id
}

/// The award times of bonus rows.
pub open spec fn bonus_dates(rows: Seq<BonusPoint>) -> Seq<Seq<char>> {
    rows.map_values(|b: BonusPoint| b.created_at@)
}

/// The bonuses awarded to a contributor, latest first; bonuses awarded at
/// the same time keep their table order.
pub fn get_bonus_by_user(bonuses: &Vec<BonusPoint>, user_id: i64) -> (r: Vec<BonusPoint>)
    ensures
        exists|perm: Seq<usize>|
            is_text_order(bonus_dates(bonuses@.filter(bonus_of(user_id))), perm)
                && r@ == arranged(bonuses@.filter(bonus_of(user_id)), perm),
        forall|k: int| 0 <= k < r.len() ==> (#[trigger] r@[k]).user_id == user_id && bonuses@.contains(r@[k]),
        forall|i: int| 0 <= i < bonuses.len() && (#[trigger] bonuses@[i]).user_id == user_id ==> r@.contains(bonuses@[i]),
        forall|k: int, j: int|
            0 <= k < j < r.len() ==> !text_lt((#[trigger] r@[k]).created_at@, (#[trigger] r@[j]).created_at@),
{
    let ghost pred = bonus_of(user_id);
    let mut sel: Vec<BonusPoint> = Vec::new();
    let mut i: usize = 0;
    while i < bonuses.len()
        invariant
            i <= bonuses.len(),
            pred == bonus_of(user_id),
            sel@ == bonuses@.take(i as int).filter(pred),
        decreases bonuses.len() - i,
    {
        proof {
            lemma_filter_step(bonuses@, pred, i as int);
        }
        if bonuses[i].user_id == user_id {
            sel.push(bonuses[i].clone());
        }
        i = i + 1;
    }
    proof {
        lemma_filter_all(bonuses@, pred);
    }
    let mut keys: Vec<String> = Vec::new();
    let mut j: usize = 0;
    while j < sel.len()
        invariant
            j <= sel.len(),
            keys@.len() == j,
            forall|k: int| 0 <= k < j ==> #[trigger] keys@[k]@ == sel@[k].created_at@,
        decreases sel.len() - j,
    {
        keys.push(sel[j].created_at.clone());
        j = j + 1;
    }
    assert(keys@.map_values(|s: String| s@) =~= bonus_dates(sel@));
    let perm = text_order(&keys);
    let r = arrange_bonuspoints(&sel, &perm);
    proof {
        let ghost pred = bonus_of(user_id);
        let ghost chosen = bonuses@.filter(pred);
        lemma_arranged_selection(bonuses@, pred, perm@);
        assert forall|k: int, j: int| 0 <= k < j < r.len() implies !text_lt(
            (#[trigger] r@[k]).created_at@,
            (#[trigger] r@[j]).created_at@,
        ) by {
            lemma_text_order_sorted(bonus_dates(chosen), perm@, k, j);
        }
    }
    r
}

/// Whether a user row has the given id.
pub open spec fn user_has_id(id: i64) -> spec_fn(User) -> bool {
    |u: User| u.id == id
}

/// The user with the given id.
pub fn get_user_by_id(users: &Vec<User>, id: i64) -> (r: Option<User>)
    ensures
        r == first_where(users@, user_has_id(id)),
        r matches Some(u) ==> u.id == id && users@.contains(u),
        r is None ==> forall|i: int| 0 <= i < users.len() ==> (#[trigger] users@[i]).id != id,
{
    proof {
        lemma_first_where_facts(users@, user_has_id(id));
    }
    let mut i: usize = 0;
    while i < users.len()
        invariant
            i <= users.len(),
            users@.take(i as int).filter(user_has_id(id)).len() == 0,
        decreases users.len() - i,
    {
        proof {
            lemma_filter_step(users@, user_has_id(id), i as int);
        }
        if users[i].id == id {
            proof {
                lemma_first_where_found(users@, user_has_id(id), i as int);
            }
            return Some(users[i].clone());
        }
        i = i + 1;
    }
    proof {
        lemma_first_where_none(users@, user_has_id(id));
    }
    None
}

/// Whether a user row has the given GitHub login.
pub open spec fn user_has_login(login: Seq<char>) -> spec_fn(User) -> bool {
    |u: User| u.github_username@ == login
}

/// The user bound to the given GitHub login.
pub fn get_user_by_username(users: &Vec<User>, username: &str) -> (r: Option<User>)
    ensures
        r == first_where(users@, user_has_login(username@)),
        r matches Some(u) ==> u.github_username@ == username@ && users@.contains(u),
        r is None ==> forall|i: int| 0 <= i < users.len() ==> (#[trigger] users@[i]).github_username@ != username@,
{
    proof {
        lemma_first_where_facts(users@, user_has_login(username@));
    }
    let mut i: usize = 0;
    while i < users.len()
        invariant
            i <= users.len(),
            users@.take(i as int).filter(user_has_login(username@)).len() == 0,
        decreases users.len() - i,
    {
        proof {
            lemma_filter_step(users@, user_has_login(username@), i as int);
        }
        if text_eq(users[i].github_username.as_str(), username) {
            proof {
                lemma_first_where_found(users@, user_has_login(username@), i as int);
            }
            return Some(users[i].clone());
        }
        i = i + 1;
    }
    proof {
        lemma_first_where_none(users@, user_has_login(username@));
    }
    None
}

/// The ids of user rows.
pub open spec fn user_ids(users: Seq<User>) -> Seq<i64> {
    users.map_values(|u: User| u.id)
}

/// All users, by id.
pub fn list_users(users: &Vec<User>) -> (r: Vec<User>)
    ensures
        exists|perm: Seq<usize>| is_key_order(user_ids(users@), false, perm) && r@ == arranged(users@, perm),
        r.len() == users.len(),
        forall|k: int| 0 <= k < r.len() ==> users@.contains(#[trigger] r@[k]),
        forall|i: int| 0 <= i < users.len() ==> r@.contains(#[trigger] users@[i]),
        forall|k: int, j: int| 0 <= k < j < r.len() ==> (#[trigger] r@[k]).id <= (#[trigger] r@[j]).id,
{
    let mut keys: Vec<i64> = Vec::new();
    let mut j: usize = 0;
    while j < users.len()
        invariant
            j <= users.len(),
            keys@ == user_ids(users@).take(j as int),
        decreases users.len() - j,
    {
        keys.push(users[j].id);
        j = j + 1;
        assert(keys@ =~= user_ids(users@).take(j as int));
    }
    assert(user_ids(users@).take(users.len() as int) =~= user_ids(users@));
    let perm = key_order(&keys, false);
    let r = arrange_users(users, &perm);
    proof {
        lemma_arranged_all(users@, perm@);
        assert forall|k: int, j: int| 0 <= k < j < r.len() implies (#[trigger] r@[k]).id <= (#[trigger] r@[j]).id by {
            lemma_key_order_sorted(user_ids(users@), false, perm@, k, j);
        }
    }
    r
}

/// The star counts of project rows.
pub open spec fn project_stars(projects: Seq<Project>) -> Seq<i64> {
    projects.map_values(|p: Project| p.stars)
}

/// All projects, most starred first; projects with as many stars keep
/// their table order.
pub fn list_projects(projects: &Vec<Project>) -> (r: Vec<Project>)
    ensures
        exists|perm: Seq<usize>| is_key_order(project_stars(projects@), true, perm) && r@ == arranged(projects@, perm),
        r.len() == projects.len(),
        forall|k: int| 0 <= k < r.len() ==> projects@.contains(#[trigger] r@[k]),
        forall|i: int| 0 <= i < projects.len() ==> r@.contains(#[trigger] projects@[i]),
        forall|k: int, j: int| 0 <= k < j < r.len() ==> (#[trigger] r@[k]).stars >= (#[trigger] r@[j]).stars,
{
    let mut keys: Vec<i64> = Vec::new();
    let mut j: usize = 0;
    while j < projects.len()
        invariant
            j <= projects.len(),
            keys@ == project_stars(projects@).take(j as int),
        decreases projects.len() - j,
    {
        keys.push(projects[j].stars);
        j = j + 1;
        assert(keys@ =~= project_stars(projects@).take(j as int));
    }
    assert(project_stars(projects@).take(projects.len() as int) =~= project_stars(projects@));
    let perm = key_order(&keys, true);
    let r = arrange_projects(projects, &perm);
    proof {
        lemma_arranged_all(projects@, perm@);
        assert forall|k: int, j: int| 0 <= k < j < r.len() implies (#[trigger] r@[k]).stars >= (#[trigger] r@[j]).stars by {
            lemma_key_order_sorted(project_stars(projects@), true, perm@, k, j);
        }
    }
    r
}

/// Whether a project row has the given id.
pub open spec fn project_has_id(id: i64) -> spec_fn(Project) -> bool {
    |p: Project| p.id == id
}

/// The project with the given id.
pub fn get_project_by_id(projects: &Vec<Project>, id: i64) -> (r: Option<Project>)
    ensures
        r == first_where(projects@, project_has_id(id)),
        r matches Some(p) ==> p.id == id && projects@.contains(p),
        r is None ==> forall|i: int| 0 <= i < projects.len() ==> (#[trigger] projects@[i]).id != id,
{
    proof {
        lemma_first_where_facts(projects@, project_has_id(id));
    }
    let mut i: usize = 0;
    while i < projects.len()
        invariant
            i <= projects.len(),
            projects@.take(i as int).filter(project_has_id(id)).len() == 0,
        decreases projects.len() - i,
    {
        proof {
            lemma_filter_step(projects@, project_has_id(id), i as int);
        }
        if projects[i].id == id {
            proof {
                lemma_first_where_found(projects@, project_has_id(id), i as int);
            }
            return Some(projects[i].clone());
        }
        i = i + 1;
    }
    proof {
        lemma_first_where_none(projects@, project_has_id(id));
    }
    None
}

/// Whether a score row is the contributor's row in the given scope: one
/// project (`Some`) or the global row (`None`).
pub open spec fn score_row_of(user_id: i64, project_id: Option<i64>) -> spec_fn(Score) -> bool {
    |s: Score| s.user_id == user_id && s.project_id == project_id
}

/// A contributor's score row, per project or global.
pub fn get_user_score(scores: &Vec<Score>, user_id: i64, project_id: Option<i64>) -> (r: Option<Score>)
    ensures
        r == first_where(scores@, score_row_of(user_id, project_id)),
        r matches Some(sc) ==> sc.user_id == user_id && sc.project_id == project_id && scores@.contains(sc),
        r is None ==> forall|i: int| 0 <= i < scores.len() ==> !((#[trigger] scores@[i]).user_id == user_id && scores@[i].project_id == project_id),
{
    proof {
        lemma_first_where_facts(scores@, score_row_of(user_id, project_id));
    }
    let mut i: usize = 0;
    while i < scores.len()
        invariant
            i <= scores.len(),
            scores@.take(i as int).filter(score_row_of(user_id, project_id)).len() == 0,
        decreases scores.len() - i,
    {
        proof {
            lemma_filter_step(scores@, score_row_of(user_id, project_id), i as int);
        }
        if scores[i].user_id == user_id && scores[i].project_id == project_id {
            proof {
                lemma_first_where_found(scores@, score_row_of(user_id, project_id), i as int);
            }
            return Some(scores[i].clone());
        }
        i = i + 1;
    }
    proof {
        lemma_first_where_none(scores@, score_row_of(user_id, project_id));
    }
    None
}

/// Whether a synchronisation record reports success.
pub open spec fn is_success(e: SyncLogEntry) -> bool {
    e.status@ == "success"@
}

/// Record `k` is the successful one with the greatest id (the first such
/// in table order where ids repeat).
pub open spec fn is_latest_success(logs: Seq<SyncLogEntry>, k: int) -> bool {
    &&& 0 <= k < logs.len()
    &&& is_success(logs[k])
    &&& forall|j: int|
        0 <= j < logs.len() && is_success(#[trigger] logs[j]) ==> logs[j].id < logs[k].id || (
        logs[j].id == logs[k].id && k <= j)
}

/// When the last successful synchronisation finished: `None` where no
/// synchronisation succeeded (or its finish time is missing).
pub fn get_last_sync(logs: &Vec<SyncLogEntry>) -> (r: Option<String>)
    ensures
        (forall|k: int| 0 <= k < logs.len() ==> !is_success(#[trigger] logs@[k])) ==> r is None,
        forall|k: int| is_latest_success(logs@, k) ==> r == logs@[k].finished_at,
{
    let mut best: Option<usize> = None;
    let mut i: usize = 0;
    while i < logs.len()
        invariant
            i <= logs.len(),
            best matches Some(b) ==> b < i && is_latest_success(logs@.take(i as int), b as int),
            best is None ==> forall|k: int| 0 <= k < i ==> !is_success(#[trigger] logs@[k]),
        decreases logs.len() - i,
    {
        if text_eq(logs[i].status.as_str(), "success") {
            match best {
                Some(b) => {
                    if logs[i].id > logs[b].id {
                        best = Some(i);
                    }
                },
                None => {
                    best = Some(i);
                },
            }
        }
        proof {
            let t = logs@.take(i + 1);
            assert forall|k: int| 0 <= k < i implies #[trigger] t[k] == logs@[k] by {}
            match best {
                Some(b) => {
                    assert forall|j: int| 0 <= j < t.len() && is_success(#[trigger] t[j]) implies t[j].id < t[b as int].id || (
                    t[j].id == t[b as int].id && b <= j) by {
                        if j < i {
                            assert(logs@.take(i as int)[j] == t[j]);
                        }
                    }
                },
                None => {},
            }
        }
        i = i + 1;
    }
    assert(logs@.take(logs.len() as int) =~= logs@);
    proof {
        match best {
            Some(b) => {
                assert forall|k: int| is_latest_success(logs@, k) implies k == b by {
                    assert(is_success(logs@[b as int]));
                }
            },
            None => {},
        }
    }
    match best {
        Some(b) => clone_opt_text(&logs[b].finished_at),
        None => None,
    }
}

/// Whether a session is still live at time `now`: it expires after `now`.
pub open spec fn session_live(now: Seq<char>) -> spec_fn(Session) -> bool {
    |s: Session| text_lt(now, s.expires_at@)
}

/// Whether a session admits the bearer of `token` at time `now`: the token
/// matches, the session is live and its user exists.
pub open spec fn session_admits(users: Seq<User>, token: Seq<char>, now: Seq<char>) -> spec_fn(Session) -> bool {
    |s: Session| s.token@ == token && text_lt(now, s.expires_at@) && first_where(users, user_has_id(s.user_id)) is Some
}

/// The user whom a token identifies at time `now`.
pub open spec fn session_user(sessions: Seq<Session>, users: Seq<User>, token: Seq<char>, now: Seq<char>) -> Option<User> {
    match first_where(sessions, session_admits(users, token, now)) {
        Some(s) => first_where(users, user_has_id(s.user_id)),
        None => None,
    }
}

/// What a token's user is: a user of the table named by a live session
/// that carries the token; and where there is none, every session carrying
/// the token has expired or names no user of the table.
proof fn lemma_session_user_facts(sessions: Seq<Session>, users: Seq<User>, token: Seq<char>, now: Seq<char>)
    ensures
        session_user(sessions, users, token, now) matches Some(u) ==> users.contains(u) && exists|k: int|
            0 <= k < sessions.len() && (#[trigger] sessions[k]).token@ == token && text_lt(now, sessions[k].expires_at@)
                && sessions[k].user_id == u.id,
        session_user(sessions, users, token, now) is None ==> forall|k: int, j: int|
            0 <= k < sessions.len() && 0 <= j < users.len() && (#[trigger] sessions[k]).token@ == token && text_lt(
                now,
                sessions[k].expires_at@,
            ) ==> (#[trigger] users[j]).id != sessions[k].user_id,
{
    let admits = session_admits(users, token, now);
    lemma_first_where_facts(sessions, admits);
    match first_where(sessions, admits) {
        Some(s) => {
            lemma_first_where_facts(users, user_has_id(s.user_id));
        },
        None => {
            assert forall|k: int, j: int|
                0 <= k < sessions.len() && 0 <= j < users.len() && (#[trigger] sessions[k]).token@ == token && text_lt(
                    now,
                    sessions[k].expires_at@,
                ) implies (#[trigger] users[j]).id != sessions[k].user_id by {
                assert(!admits(sessions[k]));
                lemma_first_where_facts(users, user_has_id(sessions[k].user_id));
            }
        },
    }
}

/// The user whom a session token identifies at time `now`; `None` where
/// no live session carries the token.
pub fn validate_session(sessions: &Vec<Session>, users: &Vec<User>, token: &str, now: &str) -> (r: Option<User>)
    ensures
        r == session_user(sessions@, users@, token@, now@),
        r matches Some(u) ==> users@.contains(u) && exists|k: int|
            0 <= k < sessions.len() && (#[trigger] sessions@[k]).token@ == token@ && text_lt(
                now@,
                sessions@[k].expires_at@,
            ) && sessions@[k].user_id == u.id,
        r is None ==> forall|k: int, j: int|
            0 <= k < sessions.len() && 0 <= j < users.len() && (#[trigger] sessions@[k]).token@ == token@ && text_lt(
                now@,
                sessions@[k].expires_at@,
            ) ==> (#[trigger] users@[j]).id != sessions@[k].user_id,
{
    proof {
        lemma_session_user_facts(sessions@, users@, token@, now@);
    }
    let ghost pred = session_admits(users@, token@, now@);
    let mut i: usize = 0;
    while i < sessions.len()
        invariant
            i <= sessions.len(),
            pred == session_admits(users@, token@, now@),
            sessions@.take(i as int).filter(pred).len() == 0,
        decreases sessions.len() - i,
    {
        proof {
            lemma_filter_step(sessions@, pred, i as int);
        }
        let s = &sessions[i];
        if text_eq(s.token.as_str(), token) && text_less(now, s.expires_at.as_str()) {
            let found = get_user_by_id(users, s.user_id);
            if found.is_some() {
                proof {
                    lemma_first_where_found(sessions@, pred, i as int);
                }
                return found;
            }
        }
        i = i + 1;
    }
    proof {
        lemma_first_where_none(sessions@, pred);
    }
    None
}

/// The sessions that remain once those expired at time `now` are removed.
pub fn cleanup_expired_sessions(sessions: &Vec<Session>, now: &str) -> (r: Vec<Session>)
    ensures
        r@ == sessions@.filter(session_live(now@)),
        forall|k: int| 0 <= k < r.len() ==> text_lt(now@, (#[trigger] r@[k]).expires_at@) && sessions@.contains(r@[k]),
        forall|i: int|
            0 <= i < sessions.len() && text_lt(now@, (#[trigger] sessions@[i]).expires_at@) ==> r@.contains(sessions@[i]),
{
    let ghost pred = session_live(now@);
    let mut r: Vec<Session> = Vec::new();
    let mut i: usize = 0;
    while i < sessions.len()
        invariant
            i <= sessions.len(),
            pred == session_live(now@),
            r@ == sessions@.take(i as int).filter(pred),
        decreases sessions.len() - i,
    {
        proof {
            lemma_filter_step(sessions@, pred, i as int);
        }
        if text_less(now, sessions[i].expires_at.as_str()) {
            r.push(sessions[i].clone());
        }
        i = i + 1;
    }
    proof {
        lemma_filter_all(sessions@, pred);
        assert forall|k: int| 0 <= k < r.len() implies text_lt(now@, (#[trigger] r@[k]).expires_at@) && sessions@.contains(
            r@[k],
        ) by {
            sessions@.lemma_filter_pred(pred, k);
            assert(r@.contains(r@[k]));
            sessions@.lemma_filter_contains_rev(pred, r@[k]);
        }
        assert forall|i: int| 0 <= i < sessions.len() && text_lt(now@, (#[trigger] sessions@[i]).expires_at@) implies r@.contains(
            sessions@[i],
        ) by {
            sessions@.lemma_filter_contains(pred, i);
        }
    }
    r
}

/// Selecting with a predicate that implies another is the same before and
/// after selecting with the other.
proof fn lemma_filter_filter<T>(rows: Seq<T>, p: spec_fn(T) -> bool, q: spec_fn(T) -> bool)
    requires
        forall|x: T| #[trigger] q(x) ==> p(x),
    ensures
        rows.filter(p).filter(q) == rows.filter(q),
    decreases rows.len(),
{
    reveal(Seq::filter);
    if rows.len() > 0 {
        lemma_filter_filter(rows.drop_last(), p, q);
        let sub = rows.drop_last().filter(p);
        if p(rows.last()) {
            assert(sub.push(rows.last()).drop_last() =~= sub);
        }
    }
}

/// Removing expired sessions changes no token's user: a session that
/// admits a bearer is live, so the first one that admits it stays first.
pub proof fn lemma_cleanup_keeps_validation(sessions: Seq<Session>, users: Seq<User>, token: Seq<char>, now: Seq<char>)
    ensures
        session_user(sessions.filter(session_live(now)), users, token, now) == session_user(sessions, users, token, now),
{
    lemma_filter_filter(sessions, session_live(now), session_admits(users, token, now));
}

/// Whether a session carries a token other than `token`.
pub open spec fn other_token(token: Seq<char>) -> spec_fn(Session) -> bool {
    |s: Session| s.token@ != token
}

/// The sessions that remain once those carrying `token` are deleted.
pub open spec fn without_token(sessions: Seq<Session>, token: Seq<char>) -> Seq<Session> {
    sessions.filter(other_token(token))
}

/// A session identifies its user exactly while it lives: a token that no
/// session carries identifies nobody; once a session with such a token is
/// stored, the token identifies the session's user (where that user exists)
/// while `now` sorts before the session's expiry, and nobody afterwards.
pub proof fn lemma_session_lifetime(sessions: Seq<Session>, users: Seq<User>, s: Session, now: Seq<char>)
    requires
        forall|k: int| 0 <= k < sessions.len() ==> (#[trigger] sessions[k]).token@ != s.token@,
    ensures
        session_user(sessions, users, s.token@, now) is None,
        session_user(sessions.push(s), users, s.token@, now) == (if text_lt(now, s.expires_at@) {
            first_where(users, user_has_id(s.user_id))
        } else {
            None
        }),
{
    let pred = session_admits(users, s.token@, now);
    assert forall|k: int| 0 <= k < sessions.len() implies !pred(#[trigger] sessions[k]) by {
        assert(sessions[k].token@ != s.token@);
    }
    lemma_first_where_absent(sessions, pred);
    lemma_first_where_push_fresh(sessions, s, pred);
}

/// Once the sessions carrying a token are deleted, the token identifies
/// nobody.
pub proof fn lemma_deleted_token_identifies_nobody(sessions: Seq<Session>, users: Seq<User>, token: Seq<char>, now: Seq<char>)
    ensures
        session_user(without_token(sessions, token), users, token, now) is None,
{
    let rest = without_token(sessions, token);
    let keep = other_token(token);
    let pred = session_admits(users, token, now);
    assert forall|k: int| 0 <= k < rest.len() implies !pred(#[trigger] rest[k]) by {
        sessions.lemma_filter_pred(keep, k);
    }
    lemma_first_where_absent(rest, pred);
}

/// A text that may replace another: the new one where given.
pub open spec fn replaced<T>(current: T, update: Option<T>) -> T {
    match update {
        Some(v) => v,
        None => current,
    }
}

/// A user after a change request at time `now`: each field that the request
/// carries is replaced, and the update time is set when any is.
pub fn apply_user_update(user: &User, req: &UpdateUserRequest, now: &str) -> (r: User)
    ensures
        r.id == user.id,
        r.github_username == user.github_username,
        r.github_pat == replaced(user.github_pat, req.github_pat),
        r.display_name == (match req.display_name {
            Some(n) => Some(n),
            None => user.display_name,
        }),
        r.is_maintainer == replaced(user.is_maintainer, req.is_maintainer),
        r.avatar_url == user.avatar_url,
        r.created_at == user.created_at,
        r.updated_at@ == (if req.github_pat is Some || req.display_name is Some || req.is_maintainer is Some {
            now@
        } else {
            user.updated_at@
        }),
{
    let mut r = user.clone();
    match &req.github_pat {
        Some(p) => {
            r.github_pat = p.clone();
            r.updated_at = String::from_str(now);
        },
        None => {},
    }
    match &req.display_name {
        Some(n) => {
            r.display_name = Some(n.clone());
            r.updated_at = String::from_str(now);
        },
        None => {},
    }
    match req.is_maintainer {
        Some(m) => {
            r.is_maintainer = m;
            r.updated_at = String::from_str(now);
        },
        None => {},
    }
    r
}

} // verus!
