//! Stable orderings of table rows by a key.
//!
//! An ordering is given as a permutation of row positions. Rows are arranged
//! by their key and, where keys are equal, keep the order they had in the
//! table, so the arrangement is unique.
use vstd::prelude::*;
use crate::text::{lemma_text_lt_irreflexive, lemma_text_lt_total, lemma_text_lt_transitive, text_less, text_lt};

verus! {

/// Row `a` comes before row `b` when ordering by an integer key, descending
/// or ascending, ties broken by table position.
pub open spec fn key_before(keys: Seq<i64>, descending: bool, a: int, b: int) -> bool {
    ||| (descending && keys[a] > keys[b])
    ||| (!descending && keys[a] < keys[b])
    ||| (keys[a] == keys[b] && a < b)
}

/// Row `a` comes before row `b` when ordering by a text key, latest first
/// (descending byte-wise), ties broken by table position.
pub open spec fn text_before(keys: Seq<Seq<char>>, a: int, b: int) -> bool {
    ||| text_lt(keys[b], keys[a])
    ||| (keys[a] == keys[b] && a < b)
}

/// `perm` lists every position below `n` exactly once.
pub open spec fn is_permutation(perm: Seq<usize>, n: nat) -> bool {
    &&& perm.len() == n
    &&& perm.no_duplicates()
    &&& forall|k: int| 0 <= k < perm.len() ==> perm[k] < n
}

/// `perm` arranges the rows by an integer key.
pub open spec fn is_key_order(keys: Seq<i64>, descending: bool, perm: Seq<usize>) -> bool {
    &&& is_permutation(perm, keys.len())
    &&& forall|p: int, q: int|
        0 <= p < q < perm.len() ==> key_before(keys, descending, #[trigger] perm[p] as int, #[trigger] perm[q] as int)
}

/// `perm` arranges the rows by a text key, latest first.
pub open spec fn is_text_order(keys: Seq<Seq<char>>, perm: Seq<usize>) -> bool {
    &&& is_permutation(perm, keys.len())
    &&& forall|p: int, q: int|
        0 <= p < q < perm.len() ==> text_before(keys, #[trigger] perm[p] as int, #[trigger] perm[q] as int)
}

/// The rows at the positions that `perm` lists, in that order.
pub open spec fn arranged<T>(rows: Seq<T>, perm: Seq<usize>) -> Seq<T> {
    perm.map_values(|k: usize| rows[k as int])
}

proof fn lemma_insert_index(s: Seq<usize>, p: int, x: usize, k: int)
    requires
        0 <= p <= s.len(),
        0 <= k <= s.len(),
    ensures
        s.insert(p, x).len() == s.len() + 1,
        k < p ==> s.insert(p, x)[k] == s[k],
        k == p ==> s.insert(p, x)[k] == x,
        k > p ==> s.insert(p, x)[k] == s[k - 1],
{
    s.insert_ensures(p, x);
}

/// Whether a row already placed with key `kq` stays ahead of a later row
/// with key `ki`.
fn stays_ahead(kq: i64, ki: i64, descending: bool) -> (r: bool)
    ensures
        r == ((descending && kq >= ki) || (!descending && kq <= ki)),
{
    (descending && kq >= ki) || (!descending && kq <= ki)
}

/// The stable arrangement of positions by an integer key.
pub fn key_order(keys: &Vec<i64>, descending: bool) -> (perm: Vec<usize>)
    ensures
        is_key_order(keys@, descending, perm@),
{
    let n = keys.len();
    let mut perm: Vec<usize> = Vec::new();
    let mut i: usize = 0;
    while i < n
        invariant
            n == keys.len(),
            i <= n,
            is_key_order(keys@.take(i as int), descending, perm@),
            forall|k: int| 0 <= k < perm.len() ==> perm[k] < i,
        decreases n - i,
    {
        let ki = keys[i];
        let mut p: usize = 0;
        while p < perm.len() && stays_ahead(keys[perm[p]], ki, descending)
            invariant
                n == keys.len(),
                i < n,
                p <= perm.len(),
                ki == keys@[i as int],
                forall|k: int| 0 <= k < perm.len() ==> perm[k] < i,
                forall|q: int| 0 <= q < p ==> key_before(keys@, descending, #[trigger] perm[q] as int, i as int),
            decreases perm.len() - p,
        {
            p = p + 1;
        }
        let ghost old_perm = perm@;
        proof {
            assert forall|q: int| p <= q < old_perm.len() implies key_before(keys@, descending, i as int, #[trigger] old_perm[q] as int) by {
                assert(old_perm[p as int] < i);
                if q > p {
                    assert(key_before(keys@.take(i as int), descending, old_perm[p as int] as int, old_perm[q] as int));
                }
            }
        }
        perm.insert(p, i);
        proof {
            let t = keys@.take(i + 1);
            assert forall|k: int| 0 <= k < perm.len() implies perm[k] < i + 1 by {
                lemma_insert_index(old_perm, p as int, i, k);
            }
            assert forall|a: int, b: int| 0 <= a < b < perm.len() implies key_before(t, descending, #[trigger] perm[a] as int, #[trigger] perm[b] as int) by {
                lemma_insert_index(old_perm, p as int, i, a);
                lemma_insert_index(old_perm, p as int, i, b);
                if a < p && b < p {
                    assert(key_before(keys@.take(i as int), descending, old_perm[a] as int, old_perm[b] as int));
                } else if a < p && b == p {
                } else if a < p && b > p {
                    assert(key_before(keys@.take(i as int), descending, old_perm[a] as int, old_perm[b - 1] as int));
                } else if a == p {
                } else {
                    assert(key_before(keys@.take(i as int), descending, old_perm[a - 1] as int, old_perm[b - 1] as int));
                }
            }
            assert forall|a: int, b: int| 0 <= a < b < perm.len() implies perm[a] != perm[b] by {
                lemma_insert_index(old_perm, p as int, i, a);
                lemma_insert_index(old_perm, p as int, i, b);
            }
        }
        i = i + 1;
    }
    assert(keys@.take(n as int) =~= keys@);
    perm
}

/// The stable arrangement of positions by a text key, latest first.
pub fn text_order(keys: &Vec<String>) -> (perm: Vec<usize>)
    ensures
        is_text_order(keys@.map_values(|s: String| s@), perm@),
{
    let ghost all = keys@.map_values(|s: String| s@);
    let n = keys.len();
    let mut perm: Vec<usize> = Vec::new();
    let mut i: usize = 0;
    while i < n
        invariant
            n == keys.len(),
            all == keys@.map_values(|s: String| s@),
            i <= n,
            is_text_order(all.take(i as int), perm@),
            forall|k: int| 0 <= k < perm.len() ==> perm[k] < i,
        decreases n - i,
    {
        let mut p: usize = 0;
        while p < perm.len() && !text_less(keys[perm[p]].as_str(), keys[i].as_str())
            invariant
                n == keys.len(),
                all == keys@.map_values(|s: String| s@),
                i < n,
                p <= perm.len(),
                forall|k: int| 0 <= k < perm.len() ==> perm[k] < i,
                forall|q: int| 0 <= q < p ==> text_before(all, #[trigger] perm[q] as int, i as int),
            decreases perm.len() - p,
        {
            proof {
                let q = perm[p as int] as int;
                lemma_text_lt_total(all[q], all[i as int]);
            }
            p = p + 1;
        }
        let ghost old_perm = perm@;
        proof {
            assert forall|q: int| p <= q < old_perm.len() implies text_before(all, i as int, #[trigger] old_perm[q] as int) by {
                let r = old_perm[p as int] as int;
                let s = old_perm[q] as int;
                assert(text_lt(all[r], all[i as int]));
                if q > p {
                    assert(text_before(all.take(i as int), r, s));
                    if text_lt(all[s], all[r]) {
                        lemma_text_lt_transitive(all[s], all[r], all[i as int]);
                    }
                }
            }
        }
        perm.insert(p, i);
        proof {
            let t = all.take(i + 1);
            assert forall|k: int| 0 <= k < perm.len() implies perm[k] < i + 1 by {
                lemma_insert_index(old_perm, p as int, i, k);
            }
            assert forall|a: int, b: int| 0 <= a < b < perm.len() implies text_before(t, #[trigger] perm[a] as int, #[trigger] perm[b] as int) by {
                lemma_insert_index(old_perm, p as int, i, a);
                lemma_insert_index(old_perm, p as int, i, b);
                if a < p && b < p {
                    assert(text_before(all.take(i as int), old_perm[a] as int, old_perm[b] as int));
                } else if a < p && b == p {
                } else if a < p && b > p {
                    assert(text_before(all.take(i as int), old_perm[a] as int, old_perm[b - 1] as int));
                } else if a == p {
                } else {
                    assert(text_before(all.take(i as int), old_perm[a - 1] as int, old_perm[b - 1] as int));
                }
            }
            assert forall|a: int, b: int| 0 <= a < b < perm.len() implies perm[a] != perm[b] by {
                lemma_insert_index(old_perm, p as int, i, a);
                lemma_insert_index(old_perm, p as int, i, b);
            }
        }
        i = i + 1;
    }
    assert(all.take(n as int) =~= all);
    perm
}

/// The positions below `n`.
spec fn positions_below(n: nat) -> Set<usize> {
    Set::new(|v: usize| v < n)
}

proof fn lemma_positions_below(n: nat)
    requires
        n <= usize::MAX + 1,
    ensures
        positions_below(n).finite(),
        positions_below(n).len() == n,
    decreases n,
{
    if n == 0 {
        assert(positions_below(n) =~= Set::<usize>::empty());
    } else {
        lemma_positions_below((n - 1) as nat);
        assert(positions_below((n - 1) as nat).insert((n - 1) as usize) =~= positions_below(n));
    }
}

/// A permutation of the positions below `n` lists each of them.
proof fn lemma_permutation_lists_all(perm: Seq<usize>, n: nat, v: usize)
    requires
        is_permutation(perm, n),
        n <= usize::MAX + 1,
        v < n,
    ensures
        perm.contains(v),
{
    lemma_positions_below(n);
    perm.unique_seq_to_set();
    vstd::seq_lib::seq_to_set_is_finite(perm);
    assert(perm.to_set().subset_of(positions_below(n))) by {
        assert forall|x: usize| perm.to_set().contains(x) implies positions_below(n).contains(x) by {
            let k = choose|k: int| 0 <= k < perm.len() && perm[k] == x;
        }
    }
    vstd::set_lib::lemma_subset_equality(perm.to_set(), positions_below(n));
    assert(positions_below(n).contains(v));
    assert(perm.to_set().contains(v));
}

proof fn lemma_key_order_prefix(keys: Seq<i64>, descending: bool, p1: Seq<usize>, p2: Seq<usize>, k: int)
    requires
        is_key_order(keys, descending, p1),
        is_key_order(keys, descending, p2),
        keys.len() <= usize::MAX,
        0 <= k <= keys.len(),
    ensures
        forall|j: int| 0 <= j < k ==> p1[j] == p2[j],
    decreases k,
{
    if k > 0 {
        lemma_key_order_prefix(keys, descending, p1, p2, k - 1);
        let x = k - 1;
        let a = p1[x];
        let b = p2[x];
        if a != b {
            lemma_permutation_lists_all(p1, keys.len(), b);
            lemma_permutation_lists_all(p2, keys.len(), a);
            let j = choose|j: int| 0 <= j < p1.len() && p1[j] == b;
            let i = choose|i: int| 0 <= i < p2.len() && p2[i] == a;
            if j < x {
                assert(p2[j] == b);
            }
            if i < x {
                assert(p1[i] == a);
            }
            assert(key_before(keys, descending, p1[x] as int, p1[j] as int));
            assert(key_before(keys, descending, p2[x] as int, p2[i] as int));
        }
    }
}

/// The stable arrangement by a key is unique: two arrangements of the same
/// keys are the same.
pub proof fn lemma_key_order_unique(keys: Seq<i64>, descending: bool, p1: Seq<usize>, p2: Seq<usize>)
    requires
        is_key_order(keys, descending, p1),
        is_key_order(keys, descending, p2),
        keys.len() <= usize::MAX,
    ensures
        p1 == p2,
{
    lemma_key_order_prefix(keys, descending, p1, p2, keys.len() as int);
    assert(p1 =~= p2);
}

/// Rows selected from a table and then arranged: each arranged row satisfies
/// the selection and stands in the table, and every row of the table that
/// satisfies it is among the arranged rows.
pub proof fn lemma_arranged_selection<T>(rows: Seq<T>, pred: spec_fn(T) -> bool, perm: Seq<usize>)
    requires
        is_permutation(perm, rows.filter(pred).len()),
        rows.len() <= usize::MAX,
    ensures
        arranged(rows.filter(pred), perm).len() == rows.filter(pred).len(),
        forall|k: int|
            0 <= k < perm.len() ==> pred(#[trigger] arranged(rows.filter(pred), perm)[k]) && rows.contains(
                arranged(rows.filter(pred), perm)[k],
            ),
        forall|i: int| 0 <= i < rows.len() && pred(#[trigger] rows[i]) ==> arranged(rows.filter(pred), perm).contains(rows[i]),
{
    let sel = rows.filter(pred);
    let r = arranged(sel, perm);
    rows.lemma_filter_len(pred);
    assert forall|k: int| 0 <= k < perm.len() implies pred(#[trigger] r[k]) && rows.contains(r[k]) by {
        rows.lemma_filter_pred(pred, perm[k] as int);
        assert(sel.contains(sel[perm[k] as int]));
        rows.lemma_filter_contains_rev(pred, sel[perm[k] as int]);
    }
    assert forall|i: int| 0 <= i < rows.len() && pred(#[trigger] rows[i]) implies r.contains(rows[i]) by {
        rows.lemma_filter_contains(pred, i);
        let m = choose|m: int| 0 <= m < sel.len() && sel[m] == rows[i];
        lemma_permutation_lists_all(perm, sel.len(), m as usize);
        let k = choose|k: int| 0 <= k < perm.len() && perm[k] == m as usize;
        assert(r[k] == rows[i]);
    }
}

/// Rows arranged by a permutation are the table's rows: each arranged row
/// stands in the table and each row of the table is among them.
pub proof fn lemma_arranged_all<T>(rows: Seq<T>, perm: Seq<usize>)
    requires
        is_permutation(perm, rows.len()),
        rows.len() <= usize::MAX,
    ensures
        arranged(rows, perm).len() == rows.len(),
        forall|k: int| 0 <= k < perm.len() ==> rows.contains(#[trigger] arranged(rows, perm)[k]),
        forall|i: int| 0 <= i < rows.len() ==> arranged(rows, perm).contains(#[trigger] rows[i]),
{
    let r = arranged(rows, perm);
    assert forall|k: int| 0 <= k < perm.len() implies rows.contains(#[trigger] r[k]) by {
        assert(rows[perm[k] as int] == r[k]);
    }
    assert forall|i: int| 0 <= i < rows.len() implies r.contains(#[trigger] rows[i]) by {
        lemma_permutation_lists_all(perm, rows.len(), i as usize);
        let k = choose|k: int| 0 <= k < perm.len() && perm[k] == i as usize;
        assert(r[k] == rows[i]);
    }
}

/// Rows arranged by an integer key come out in key order: descending keys
/// never rise, ascending keys never fall.
pub proof fn lemma_key_order_sorted(keys: Seq<i64>, descending: bool, perm: Seq<usize>, p: int, q: int)
    requires
        is_key_order(keys, descending, perm),
        0 <= p < q < perm.len(),
    ensures
        descending ==> keys[perm[p] as int] >= keys[perm[q] as int],
        !descending ==> keys[perm[p] as int] <= keys[perm[q] as int],
{
    assert(key_before(keys, descending, perm[p] as int, perm[q] as int));
}

/// Rows arranged by a text key come out latest first.
pub proof fn lemma_text_order_sorted(keys: Seq<Seq<char>>, perm: Seq<usize>, p: int, q: int)
    requires
        is_text_order(keys, perm),
        0 <= p < q < perm.len(),
    ensures
        !text_lt(keys[perm[p] as int], keys[perm[q] as int]),
{
    assert(text_before(keys, perm[p] as int, perm[q] as int));
    let a = keys[perm[p] as int];
    let b = keys[perm[q] as int];
    lemma_text_lt_total(a, b);
    lemma_text_lt_irreflexive(a);
}

} // verus!
