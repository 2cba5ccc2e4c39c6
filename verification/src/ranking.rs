//! Leaderboards and the project listing by hotness.
use vstd::prelude::*;
use crate::models::{BonusPoint, Comment, Issue, LeaderboardEntry, Project, PullRequest, Score, User};
use crate::order::{arranged, is_key_order, is_permutation, key_before, key_order, lemma_key_order_unique};
use crate::queries::{get_user_by_id, list_projects, project_stars, user_has_id};
use crate::rows::{first_where, lemma_first_where_facts};
use crate::scoring::{get_project_hotness, hotness_defined, hotness_spec, max_rows};

verus! {

/// The leaderboard row that joins a score row with its user, unranked.
pub open spec fn entry_of(s: Score, u: User) -> LeaderboardEntry {
    LeaderboardEntry {
        rank: 0,
        user_id: s.user_id,
        github_username: u.github_username,
        display_name: u.display_name,
        avatar_url: u.avatar_url,
        lines_changed_score: s.lines_changed_score,
        comments_score: s.comments_score,
        bonus_score: s.bonus_score,
        total_score: s.total_score,
    }
}

/// The score rows of a leaderboard joined with their users, in table order,
/// unranked: the rows of one project (`Some`) or the global rows (`None`)
/// whose user exists.
pub open spec fn leaderboard_rows(scores: Seq<Score>, users: Seq<User>, project_id: Option<i64>) -> Seq<LeaderboardEntry>
    decreases scores.len(),
{
    if scores.len() == 0 {
        Seq::empty()
    } else {
        let rest = leaderboard_rows(scores.drop_last(), users, project_id);
        let s = scores.last();
        match first_where(users, user_has_id(s.user_id)) {
            Some(u) => if s.project_id == project_id {
                rest.push(entry_of(s, u))
            } else {
                rest
            },
            None => rest,
        }
    }
}

/// The totals of leaderboard rows.
pub open spec fn entry_totals(rows: Seq<LeaderboardEntry>) -> Seq<i64> {
    rows.map_values(|e: LeaderboardEntry| e.total_score)
}

/// Where a page starts: a negative offset counts as zero, and no page
/// starts past the last row.
pub open spec fn page_start(len: int, offset: i64) -> int {
    if offset < 0 {
        0
    } else if offset > len {
        len
    } else {
        offset as int
    }
}

/// How many rows a page holds: a negative limit means no limit.
pub open spec fn page_len(len: int, limit: i64, offset: i64) -> int {
    let rest = len - page_start(len, offset);
    if limit < 0 || limit > rest {
        rest
    } else {
        limit as int
    }
}

/// The rank given to the row before the first of a page: the offset cut
/// to 32 bits.
pub open spec fn rank_base(offset: i64) -> int {
    (offset as u32) as int
}

/// A leaderboard row with its rank set.
pub open spec fn with_rank(e: LeaderboardEntry, rank: u32) -> LeaderboardEntry {
    LeaderboardEntry { rank, ..e }
}

/// The leaderboard rows at the positions `perm` lists.
fn arrange_entries(rows: &Vec<LeaderboardEntry>, perm: &Vec<usize>) -> (r: Vec<LeaderboardEntry>)
    requires
        forall|k: int| 0 <= k < perm.len() ==> perm[k] < rows.len(),
    ensures
        r@ == arranged(rows@, perm@),
{
    let mut r: Vec<LeaderboardEntry> = Vec::new();
    let mut k: usize = 0;
    while k < perm.len()
        invariant
            k <= perm.len(),
            forall|j: int| 0 <= j < perm.len() ==> perm[j] < rows.len(),
            r@ == arranged(rows@, perm@.take(k as int)),
        decreases perm.len() - k,
    {
        let row = rows[perm[k]].clone();
        r.push(row);
        k = k + 1;
        assert(arranged(rows@, perm@.take(k as int)) =~= arranged(rows@, perm@.take(k - 1)).push(
            rows@[perm@[k - 1] as int],
        ));
    }
    assert(perm@.take(perm.len() as int) =~= perm@);
    r
}

/// `page` is the page of the leaderboard of one project (`Some`) or the
/// global one (`None`) for `limit` and `offset`: the rows arranged highest
/// total first, ties in table order, `page_len` of them from `page_start`
/// on, ranked from the offset cut to 32 bits plus one, no rank past
/// `u32::MAX`.
pub open spec fn is_leaderboard_page(
    scores: Seq<Score>,
    users: Seq<User>,
    project_id: Option<i64>,
    limit: i64,
    offset: i64,
    page: Seq<LeaderboardEntry>,
) -> bool {
    let rows = leaderboard_rows(scores, users, project_id);
    let n = page_len(rows.len() as int, limit, offset);
    &&& rank_base(offset) + n <= u32::MAX
    &&& page.len() == n
    &&& exists|perm: Seq<usize>|
        {
            &&& #[trigger] is_key_order(entry_totals(rows), true, perm)
            &&& forall|k: int|
                0 <= k < n ==> #[trigger] page[k] == with_rank(
                    arranged(rows, perm)[page_start(rows.len() as int, offset) + k],
                    (rank_base(offset) + k + 1) as u32,
                )
        }
}

/// A page of the leaderboard of one project (`Some`) or the global one
/// (`None`): score rows joined with their users, highest total first (rows
/// with equal totals keep their table order), `limit` rows (all where it is
/// negative) from `offset` on (from the start where it is negative), ranked
/// from the offset cut to 32 bits plus one. `None` where a rank would pass
/// `u32::MAX`.
pub fn get_leaderboard(
    scores: &Vec<Score>,
    users: &Vec<User>,
    project_id: Option<i64>,
    limit: i64,
    offset: i64,
) -> (r: Option<Vec<LeaderboardEntry>>)
    ensures
        ({
            let rows = leaderboard_rows(scores@, users@, project_id);
            let n = page_len(rows.len() as int, limit, offset);
            &&& r is None <==> rank_base(offset) + n > u32::MAX
            &&& r matches Some(page) ==> is_leaderboard_page(scores@, users@, project_id, limit, offset, page@)
        }),
        r matches Some(page) ==> forall|k: int, j: int|
            0 <= k < j < page.len() ==> (#[trigger] page@[k]).total_score >= (#[trigger] page@[j]).total_score,
        r matches Some(page) ==> forall|k: int|
            0 <= k < page.len() ==> from_score_row(scores@, project_id, #[trigger] page@[k]),
        r matches Some(page) ==> forall|k: int| 0 <= k < page.len() ==> from_user_row(users@, #[trigger] page@[k]),
{
    let ghost all = leaderboard_rows(scores@, users@, project_id);
    let mut rows: Vec<LeaderboardEntry> = Vec::new();
    let mut i: usize = 0;
    while i < scores.len()
        invariant
            i <= scores.len(),
            rows@ == leaderboard_rows(scores@.take(i as int), users@, project_id),
        decreases scores.len() - i,
    {
        let s = &scores[i];
        assert(scores@.take(i + 1).drop_last() =~= scores@.take(i as int));
        assert(scores@.take(i + 1).last() == scores@[i as int]);
        match get_user_by_id(users, s.user_id) {
            Some(u) => {
                if s.project_id == project_id {
                    rows.push(
                        LeaderboardEntry {
                            rank: 0,
                            user_id: s.user_id,
                            github_username: u.github_username,
                            display_name: u.display_name,
                            avatar_url: u.avatar_url,
                            lines_changed_score: s.lines_changed_score,
                            comments_score: s.comments_score,
                            bonus_score: s.bonus_score,
                            total_score: s.total_score,
                        },
                    );
                }
            },
            None => {},
        }
        i = i + 1;
    }
    assert(scores@.take(scores.len() as int) =~= scores@);
    let mut keys: Vec<i64> = Vec::new();
    let mut j: usize = 0;
    while j < rows.len()
        invariant
            j <= rows.len(),
            keys@ == entry_totals(rows@).take(j as int),
        decreases rows.len() - j,
    {
        keys.push(rows[j].total_score);
        j = j + 1;
        assert(keys@ =~= entry_totals(rows@).take(j as int));
    }
    assert(entry_totals(rows@).take(rows.len() as int) =~= entry_totals(rows@));
    let perm = key_order(&keys, true);
    let sorted = arrange_entries(&rows, &perm);
    let len = sorted.len();
    let start: usize = if offset < 0 {
        0
    } else if offset as u64 > len as u64 {
        len
    } else {
        offset as usize
    };
    let rest = len - start;
    let n: usize = if limit < 0 || limit as u64 > rest as u64 {
        rest
    } else {
        limit as usize
    };
    let base: u32 = #[verifier::truncate] (offset as u32);
    if base as u128 + n as u128 > 0xffff_ffffu128 {
        return None;
    }
    let mut page: Vec<LeaderboardEntry> = Vec::new();
    let mut k: usize = 0;
    while k < n
        invariant
            k <= n,
            start + n <= sorted.len(),
            base as int + n <= u32::MAX,
            page.len() == k,
            forall|x: int|
                0 <= x < k ==> #[trigger] page@[x] == with_rank(sorted@[start + x], (base + x + 1) as u32),
        decreases n - k,
    {
        let mut e = sorted[start + k].clone();
        e.rank = base + (k as u32) + 1;
        page.push(e);
        k = k + 1;
    }
    proof {
        assert(is_key_order(entry_totals(all), true, perm@));
        assert(is_leaderboard_page(scores@, users@, project_id, limit, offset, page@));
        lemma_leaderboard_page_facts(scores@, users@, project_id, limit, offset, page@);
    }
    Some(page)
}

/// A leaderboard entry carries the scores of a row of the score table in
/// the given scope: same contributor, same parts, same total.
pub open spec fn from_score_row(scores: Seq<Score>, project_id: Option<i64>, e: LeaderboardEntry) -> bool {
    exists|i: int|
        0 <= i < scores.len() && (#[trigger] scores[i]).user_id == e.user_id && scores[i].project_id == project_id
            && scores[i].lines_changed_score == e.lines_changed_score && scores[i].comments_score
            == e.comments_score && scores[i].bonus_score == e.bonus_score && scores[i].total_score == e.total_score
}

/// A leaderboard entry shows a user of the user table: the one with the
/// entry's contributor id, by login, display name and avatar.
pub open spec fn from_user_row(users: Seq<User>, e: LeaderboardEntry) -> bool {
    exists|j: int|
        0 <= j < users.len() && (#[trigger] users[j]).id == e.user_id && users[j].github_username
            == e.github_username && users[j].display_name == e.display_name && users[j].avatar_url == e.avatar_url
}

proof fn lemma_leaderboard_rows_from(scores: Seq<Score>, users: Seq<User>, project_id: Option<i64>)
    ensures
        forall|m: int|
            0 <= m < leaderboard_rows(scores, users, project_id).len() ==> from_score_row(
                scores,
                project_id,
                #[trigger] leaderboard_rows(scores, users, project_id)[m],
            ) && from_user_row(users, leaderboard_rows(scores, users, project_id)[m]),
    decreases scores.len(),
{
    if scores.len() > 0 {
        let init = scores.drop_last();
        lemma_leaderboard_rows_from(init, users, project_id);
        let rows = leaderboard_rows(scores, users, project_id);
        let before = leaderboard_rows(init, users, project_id);
        assert forall|m: int| 0 <= m < rows.len() implies from_score_row(scores, project_id, #[trigger] rows[m])
            && from_user_row(users, rows[m]) by {
            if m < before.len() {
                assert(rows[m] == before[m]);
                assert(from_score_row(init, project_id, before[m]));
                let i = choose|i: int|
                    0 <= i < init.len() && (#[trigger] init[i]).user_id == before[m].user_id && init[i].project_id
                        == project_id && init[i].lines_changed_score == before[m].lines_changed_score
                        && init[i].comments_score == before[m].comments_score && init[i].bonus_score
                        == before[m].bonus_score && init[i].total_score == before[m].total_score;
                assert(scores[i] == init[i]);
            } else {
                let last = scores.len() - 1;
                assert(scores[last] == scores.last());
                lemma_first_where_facts(users, user_has_id(scores.last().user_id));
            }
        }
    }
}

/// What every page of the leaderboard is: its entries come from score rows
/// of the requested scope, highest total first, ranked one after another.
pub proof fn lemma_leaderboard_page_facts(
    scores: Seq<Score>,
    users: Seq<User>,
    project_id: Option<i64>,
    limit: i64,
    offset: i64,
    page: Seq<LeaderboardEntry>,
)
    requires
        is_leaderboard_page(scores, users, project_id, limit, offset, page),
    ensures
        forall|k: int, j: int|
            0 <= k < j < page.len() ==> (#[trigger] page[k]).total_score >= (#[trigger] page[j]).total_score,
        forall|k: int| 0 <= k < page.len() ==> from_score_row(scores, project_id, #[trigger] page[k]),
        forall|k: int| 0 <= k < page.len() ==> from_user_row(users, #[trigger] page[k]),
        forall|k: int| 0 <= k && k + 1 < page.len() ==> (#[trigger] page[k + 1]).rank == page[k].rank + 1,
{
    let rows = leaderboard_rows(scores, users, project_id);
    let n = page_len(rows.len() as int, limit, offset);
    let start = page_start(rows.len() as int, offset);
    let perm = choose|perm: Seq<usize>|
        {
            &&& #[trigger] is_key_order(entry_totals(rows), true, perm)
            &&& forall|k: int|
                0 <= k < n ==> #[trigger] page[k] == with_rank(
                    arranged(rows, perm)[page_start(rows.len() as int, offset) + k],
                    (rank_base(offset) + k + 1) as u32,
                )
        };
    lemma_leaderboard_rows_from(scores, users, project_id);
    assert forall|k: int, j: int| 0 <= k < j < page.len() implies (#[trigger] page[k]).total_score
        >= (#[trigger] page[j]).total_score by {
        assert(page[k] == with_rank(arranged(rows, perm)[start + k], (rank_base(offset) + k + 1) as u32));
        assert(page[j] == with_rank(arranged(rows, perm)[start + j], (rank_base(offset) + j + 1) as u32));
        assert(key_before(entry_totals(rows), true, perm[start + k] as int, perm[start + j] as int));
    }
    assert forall|k: int| 0 <= k < page.len() implies from_score_row(scores, project_id, #[trigger] page[k])
        && from_user_row(users, page[k]) by {
        assert(page[k] == with_rank(arranged(rows, perm)[start + k], (rank_base(offset) + k + 1) as u32));
        let e = rows[perm[start + k] as int];
        assert(from_score_row(scores, project_id, e));
        assert(from_user_row(users, e));
    }
    assert forall|k: int| 0 <= k && k + 1 < page.len() implies (#[trigger] page[k + 1]).rank == page[k].rank + 1 by {
        assert(page[k] == with_rank(arranged(rows, perm)[start + k], (rank_base(offset) + k + 1) as u32));
        assert(page[k + 1] == with_rank(arranged(rows, perm)[start + k + 1], (rank_base(offset) + k + 1 + 1) as u32));
    }
}

proof fn lemma_leaderboard_rows_len(scores: Seq<Score>, users: Seq<User>, project_id: Option<i64>)
    ensures
        leaderboard_rows(scores, users, project_id).len() <= scores.len(),
    decreases scores.len(),
{
    if scores.len() > 0 {
        lemma_leaderboard_rows_len(scores.drop_last(), users, project_id);
    }
}

/// Paging never changes who holds which rank: the page of `limit` rows from
/// `offset` is the leaderboard's first `limit + offset` rows with the first
/// `offset` dropped, the same entries with the same ranks.
pub proof fn lemma_paging_keeps_ranks(
    scores: Seq<Score>,
    users: Seq<User>,
    project_id: Option<i64>,
    limit: i64,
    offset: i64,
    page: Seq<LeaderboardEntry>,
    top: Seq<LeaderboardEntry>,
)
    requires
        scores.len() <= usize::MAX,
        0 <= limit,
        0 <= offset,
        limit + offset <= i64::MAX,
        is_leaderboard_page(scores, users, project_id, limit, offset, page),
        is_leaderboard_page(scores, users, project_id, (limit + offset) as i64, 0, top),
    ensures
        offset <= top.len() ==> page == top.subrange(offset as int, top.len() as int),
        offset > top.len() ==> page.len() == 0,
{
    let rows = leaderboard_rows(scores, users, project_id);
    let keys = entry_totals(rows);
    lemma_leaderboard_rows_len(scores, users, project_id);
    let n = page_len(rows.len() as int, limit, offset);
    let m = page_len(rows.len() as int, (limit + offset) as i64, 0);
    let p1 = choose|perm: Seq<usize>|
        {
            &&& #[trigger] is_key_order(keys, true, perm)
            &&& forall|k: int|
                0 <= k < n ==> #[trigger] page[k] == with_rank(
                    arranged(rows, perm)[page_start(rows.len() as int, offset) + k],
                    (rank_base(offset) + k + 1) as u32,
                )
        };
    let p2 = choose|perm: Seq<usize>|
        {
            &&& #[trigger] is_key_order(keys, true, perm)
            &&& forall|k: int|
                0 <= k < m ==> #[trigger] top[k] == with_rank(
                    arranged(rows, perm)[page_start(rows.len() as int, 0) + k],
                    (rank_base(0) + k + 1) as u32,
                )
        };
    lemma_key_order_unique(keys, true, p1, p2);
    if offset <= top.len() {
        let sub = top.subrange(offset as int, top.len() as int);
        assert forall|k: int| 0 <= k < n implies page[k] == sub[k] by {
            assert(top[offset + k] == with_rank(
                arranged(rows, p2)[offset + k],
                (rank_base(0) + offset + k + 1) as u32,
            ));
            assert(rank_base(0) == 0) by (bit_vector);
            assert(rank_base(offset) == offset);
        }
        assert(page =~= sub);
    }
}

/// A project's hotness, or zero where it cannot be computed.
pub open spec fn hotness_or_zero(
    prs: Seq<PullRequest>,
    comments: Seq<Comment>,
    issues: Seq<Issue>,
    bonuses: Seq<BonusPoint>,
    project_id: i64,
    since: Seq<char>,
) -> int {
    if hotness_defined(prs, comments, issues, bonuses, project_id, since) {
        hotness_spec(prs, comments, issues, bonuses, project_id, since)
    } else {
        0
    }
}

/// The hotness of each of a list of projects.
pub open spec fn hotness_keys(
    listed: Seq<Project>,
    prs: Seq<PullRequest>,
    comments: Seq<Comment>,
    issues: Seq<Issue>,
    bonuses: Seq<BonusPoint>,
    since: Seq<char>,
) -> Seq<i64> {
    listed.map_values(|p: Project| hotness_or_zero(prs, comments, issues, bonuses, p.id, since) as i64)
}

/// Projects paired with their hotness.
pub open spec fn with_hotness(
    listed: Seq<Project>,
    prs: Seq<PullRequest>,
    comments: Seq<Comment>,
    issues: Seq<Issue>,
    bonuses: Seq<BonusPoint>,
    since: Seq<char>,
) -> Seq<(Project, i64)> {
    listed.map_values(|p: Project| (p, hotness_or_zero(prs, comments, issues, bonuses, p.id, since) as i64))
}

/// `r` lists the projects with their hotness over the window that starts at
/// `since`, hottest first; projects equally hot keep the order of the
/// listing by stars (most starred first, then table order).
pub open spec fn is_hotness_listing(
    projects: Seq<Project>,
    prs: Seq<PullRequest>,
    comments: Seq<Comment>,
    issues: Seq<Issue>,
    bonuses: Seq<BonusPoint>,
    since: Seq<char>,
    r: Seq<(Project, i64)>,
) -> bool {
    exists|by_stars: Seq<usize>, by_heat: Seq<usize>|
        #![trigger is_key_order(hotness_keys(arranged(projects, by_stars), prs, comments, issues, bonuses, since), true, by_heat)]
        {
            &&& is_key_order(project_stars(projects), true, by_stars)
            &&& is_key_order(hotness_keys(arranged(projects, by_stars), prs, comments, issues, bonuses, since), true, by_heat)
            &&& r == arranged(with_hotness(arranged(projects, by_stars), prs, comments, issues, bonuses, since), by_heat)
        }
}

/// All projects with their hotness over the window that starts at `since`,
/// hottest first; projects equally hot keep the order of the listing by
/// stars (most starred first, then table order).
pub fn list_projects_by_hotness(
    projects: &Vec<Project>,
    prs: &Vec<PullRequest>,
    comments: &Vec<Comment>,
    issues: &Vec<Issue>,
    bonuses: &Vec<BonusPoint>,
    since: &str,
) -> (r: Vec<(Project, i64)>)
    requires
        prs.len() <= max_rows(),
        comments.len() <= max_rows(),
        issues.len() <= max_rows(),
        bonuses.len() <= max_rows(),
    ensures
        is_hotness_listing(projects@, prs@, comments@, issues@, bonuses@, since@, r@),
{
    let listed = list_projects(projects);
    let ghost by_stars = choose|perm: Seq<usize>|
        is_key_order(project_stars(projects@), true, perm) && listed@ == arranged(projects@, perm);
    let mut heat: Vec<i64> = Vec::new();
    let mut j: usize = 0;
    while j < listed.len()
        invariant
            j <= listed.len(),
            prs.len() <= max_rows(),
            comments.len() <= max_rows(),
            issues.len() <= max_rows(),
            bonuses.len() <= max_rows(),
            heat@ == hotness_keys(listed@, prs@, comments@, issues@, bonuses@, since@).take(j as int),
        decreases listed.len() - j,
    {
        let h = match get_project_hotness(prs, comments, issues, bonuses, listed[j].id, since) {
            Some(v) => v,
            None => 0,
        };
        heat.push(h);
        j = j + 1;
        assert(heat@ =~= hotness_keys(listed@, prs@, comments@, issues@, bonuses@, since@).take(j as int));
    }
    assert(hotness_keys(listed@, prs@, comments@, issues@, bonuses@, since@).take(listed.len() as int)
        =~= hotness_keys(listed@, prs@, comments@, issues@, bonuses@, since@));
    let perm = key_order(&heat, true);
    let mut r: Vec<(Project, i64)> = Vec::new();
    let mut k: usize = 0;
    while k < perm.len()
        invariant
            k <= perm.len(),
            perm.len() == listed.len(),
            heat.len() == listed.len(),
            forall|x: int| 0 <= x < perm.len() ==> perm[x] < listed.len(),
            heat@ == hotness_keys(listed@, prs@, comments@, issues@, bonuses@, since@),
            r@ == arranged(with_hotness(listed@, prs@, comments@, issues@, bonuses@, since@), perm@.take(k as int)),
        decreases perm.len() - k,
    {
        let at = perm[k];
        let pair = (listed[at].clone(), heat[at]);
        r.push(pair);
        k = k + 1;
        assert(r@ =~= arranged(with_hotness(listed@, prs@, comments@, issues@, bonuses@, since@), perm@.take(k as int)));
    }
    assert(perm@.take(perm.len() as int) =~= perm@);
    r
}

/// The hotness listing holds every project once, each with its hotness (zero
/// where it cannot be computed), hottest first; projects equally hot stand
/// as in the listing by stars: more stars first, then table order.
pub proof fn lemma_hotness_listing_order(
    projects: Seq<Project>,
    prs: Seq<PullRequest>,
    comments: Seq<Comment>,
    issues: Seq<Issue>,
    bonuses: Seq<BonusPoint>,
    since: Seq<char>,
    r: Seq<(Project, i64)>,
)
    requires
        is_hotness_listing(projects, prs, comments, issues, bonuses, since, r),
    ensures
        r.len() == projects.len(),
        exists|perm: Seq<usize>|
            {
                &&& #[trigger] is_permutation(perm, projects.len())
                &&& forall|k: int| 0 <= k < r.len() ==> #[trigger] r[k].0 == projects[perm[k] as int]
                &&& forall|p: int, q: int|
                    0 <= p < q < r.len() && r[p].1 == r[q].1 ==> key_before(
                        project_stars(projects),
                        true,
                        #[trigger] perm[p] as int,
                        #[trigger] perm[q] as int,
                    )
            },
        forall|k: int|
            0 <= k < r.len() ==> #[trigger] r[k].1 == hotness_or_zero(prs, comments, issues, bonuses, r[k].0.id, since),
        forall|p: int, q: int| 0 <= p < q < r.len() ==> #[trigger] r[p].1 >= #[trigger] r[q].1,
{
    let (by_stars, by_heat) = choose|by_stars: Seq<usize>, by_heat: Seq<usize>|
        #![trigger is_key_order(hotness_keys(arranged(projects, by_stars), prs, comments, issues, bonuses, since), true, by_heat)]
        {
            &&& is_key_order(project_stars(projects), true, by_stars)
            &&& is_key_order(hotness_keys(arranged(projects, by_stars), prs, comments, issues, bonuses, since), true, by_heat)
            &&& r == arranged(with_hotness(arranged(projects, by_stars), prs, comments, issues, bonuses, since), by_heat)
        };
    let listed = arranged(projects, by_stars);
    let keys = hotness_keys(listed, prs, comments, issues, bonuses, since);
    let perm = by_heat.map_values(|x: usize| by_stars[x as int]);
    assert forall|k: int| 0 <= k < r.len() implies #[trigger] r[k].0 == projects[perm[k] as int]
        && r[k].1 == keys[by_heat[k] as int]
        && r[k].1 == hotness_or_zero(prs, comments, issues, bonuses, r[k].0.id, since) by {
        let x = by_heat[k] as int;
        let h = hotness_or_zero(prs, comments, issues, bonuses, listed[x].id, since);
        if hotness_defined(prs, comments, issues, bonuses, listed[x].id, since) {
            assert(crate::scoring::fits_i64(h));
        }
        assert(h as i64 == h);
    }
    assert forall|a: int, b: int| 0 <= a < b < perm.len() implies perm[a] != perm[b] by {
        assert(by_heat[a] != by_heat[b]);
    }
    assert(is_permutation(perm, projects.len()));
    assert forall|p: int, q: int| 0 <= p < q < r.len() && r[p].1 == r[q].1 implies key_before(
        project_stars(projects),
        true,
        #[trigger] perm[p] as int,
        #[trigger] perm[q] as int,
    ) by {
        assert(key_before(keys, true, by_heat[p] as int, by_heat[q] as int));
        assert(by_heat[p] < by_heat[q]);
        assert(key_before(project_stars(projects), true, by_stars[by_heat[p] as int] as int, by_stars[by_heat[q] as int] as int));
    }
    assert forall|p: int, q: int| 0 <= p < q < r.len() implies #[trigger] r[p].1 >= #[trigger] r[q].1 by {
        assert(key_before(keys, true, by_heat[p] as int, by_heat[q] as int));
    }
}

} // verus!
