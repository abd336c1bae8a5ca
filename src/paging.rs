//! Keyset pagination: what a page holds, when it has a next key, and why walking
//! the pages by their keys visits every matching row once.
use vstd::prelude::*;

verus! {

/// Rows per page of the contact and call lists.
pub const PAGE_LIMIT: i64 = 10;

/// The rows of `rows` that `keep` admits, in their order.
pub open spec fn select<T>(rows: Seq<T>, keep: spec_fn(T) -> bool) -> Seq<T>
    decreases rows.len(),
{
    if rows.len() == 0 {
        Seq::empty()
    } else if keep(rows.last()) {
        select(rows.drop_last(), keep).push(rows.last())
    } else {
        select(rows.drop_last(), keep)
    }
}

/// At most the first `n` rows.
pub open spec fn first_n<T>(rows: Seq<T>, n: int) -> Seq<T> {
    if 0 <= n < rows.len() {
        rows.take(n)
    } else {
        rows
    }
}

/// The keys of `rows` increase strictly in the order `lt`.
pub open spec fn sorted_by<T, K>(rows: Seq<T>, key: spec_fn(T) -> K, lt: spec_fn(K, K) -> bool) -> bool {
    forall|i: int, j: int| 0 <= i < j < rows.len() ==> #[trigger] lt(key(rows[i]), key(rows[j]))
}

pub open spec fn asymmetric<K>(lt: spec_fn(K, K) -> bool) -> bool {
    forall|a: K, b: K| #[trigger] lt(a, b) ==> !lt(b, a)
}

/// What the storage answers to a page request: the first `limit` rows, in key
/// order, that the filter admits and whose key comes after the cursor.
pub open spec fn page_answer<T, K>(
    rows: Seq<T>,
    keep: spec_fn(T) -> bool,
    key: spec_fn(T) -> K,
    lt: spec_fn(K, K) -> bool,
    after: Option<K>,
    limit: int,
) -> Seq<T> {
    match after {
        None => first_n(select(rows, keep), limit),
        Some(k) => first_n(select(rows, |r: T| keep(r) && lt(k, key(r))), limit),
    }
}

/// The length of a list as the storage layer counts it: an `i64`, or 0 if it
/// does not fit.
pub open spec fn len_as_i64(n: nat) -> int {
    if n <= i64::MAX {
        n as int
    } else {
        0
    }
}

/// A page carries a next key when it is full: its length reaches the limit.
pub open spec fn next_key_due(len: nat, limit: int) -> bool {
    len > 0 && len_as_i64(len) >= limit
}

pub fn length_as_i64(n: usize) -> (r: i64)
    ensures
        r == len_as_i64(n as nat),
{
    if n as u64 <= i64::MAX as u64 {
        n as i64
    } else {
        0
    }
}

proof fn lemma_select_from<T>(rows: Seq<T>, keep: spec_fn(T) -> bool, x: int)
    requires
        0 <= x < select(rows, keep).len(),
    ensures
        exists|a: int| 0 <= a < rows.len() && rows[a] == select(rows, keep)[x] && keep(rows[a]),
    decreases rows.len(),
{
    if rows.len() > 0 {
        let rest = select(rows.drop_last(), keep);
        if keep(rows.last()) && x == rest.len() {
            assert(rows[rows.len() - 1] == rows.last());
        } else {
            lemma_select_from(rows.drop_last(), keep, x);
            let a = choose|a: int| 0 <= a < rows.drop_last().len() && rows.drop_last()[a] == rest[x] && keep(rows.drop_last()[a]);
            assert(rows[a] == rows.drop_last()[a]);
        }
    }
}

proof fn lemma_select_sorted<T, K>(rows: Seq<T>, keep: spec_fn(T) -> bool, key: spec_fn(T) -> K, lt: spec_fn(K, K) -> bool)
    requires
        sorted_by(rows, key, lt),
    ensures
        sorted_by(select(rows, keep), key, lt),
    decreases rows.len(),
{
    if rows.len() > 0 {
        let init = rows.drop_last();
        assert(sorted_by(init, key, lt)) by {
            assert forall|i: int, j: int| 0 <= i < j < init.len() implies #[trigger] lt(key(init[i]), key(init[j])) by {
                assert(lt(key(rows[i]), key(rows[j])));
            }
        }
        lemma_select_sorted(init, keep, key, lt);
        if keep(rows.last()) {
            let rest = select(init, keep);
            let s = rest.push(rows.last());
            assert forall|i: int, j: int| 0 <= i < j < s.len() implies #[trigger] lt(key(s[i]), key(s[j])) by {
                if j == rest.len() {
                    lemma_select_from(init, keep, i);
                    let a = choose|a: int| 0 <= a < init.len() && init[a] == rest[i] && keep(init[a]);
                    assert(lt(key(rows[a]), key(rows[rows.len() - 1])));
                } else {
                    assert(lt(key(rest[i]), key(rest[j])));
                }
            }
        }
    }
}

proof fn lemma_select_select<T>(rows: Seq<T>, p: spec_fn(T) -> bool, q: spec_fn(T) -> bool)
    ensures
        select(select(rows, p), q) == select(rows, |r: T| p(r) && q(r)),
    decreases rows.len(),
{
    if rows.len() > 0 {
        lemma_select_select(rows.drop_last(), p, q);
        let rest = select(rows.drop_last(), p);
        if p(rows.last()) {
            let s = rest.push(rows.last());
            assert(s.drop_last() =~= rest);
        }
    }
}

/// In a sorted sequence, the rows after the key of row `n - 1` are the rows from
/// position `n` on.
proof fn lemma_select_after<T, K>(m: Seq<T>, key: spec_fn(T) -> K, lt: spec_fn(K, K) -> bool, n: int)
    requires
        0 < n <= m.len(),
        sorted_by(m, key, lt),
        asymmetric(lt),
    ensures
        select(m, |r: T| lt(key(m[n - 1]), key(r))) == m.skip(n),
    decreases m.len(),
{
    let k = key(m[n - 1]);
    let gt = |r: T| lt(k, key(r));
    if m.len() == n {
        assert forall|i: int| 0 <= i < m.len() implies !gt(#[trigger] m[i]) by {
            if i < n - 1 {
                assert(lt(key(m[i]), k));
            } else {
                if lt(k, k) {
                    assert(!lt(k, k));
                }
            }
        }
        lemma_select_none(m, gt);
        assert(m.skip(n) =~= Seq::<T>::empty());
    } else {
        let init = m.drop_last();
        assert(sorted_by(init, key, lt)) by {
            assert forall|i: int, j: int| 0 <= i < j < init.len() implies #[trigger] lt(key(init[i]), key(init[j])) by {
                assert(lt(key(m[i]), key(m[j])));
            }
        }
        assert(init[n - 1] == m[n - 1]);
        lemma_select_after(init, key, lt, n);
        assert(lt(key(m[n - 1]), key(m[m.len() - 1])));
        assert(gt(m.last()));
        assert(init.skip(n).push(m.last()) =~= m.skip(n));
    }
}

/// A filter that admits no row selects nothing.
proof fn lemma_select_none<T>(m: Seq<T>, gt: spec_fn(T) -> bool)
    requires
        forall|i: int| 0 <= i < m.len() ==> !gt(#[trigger] m[i]),
    ensures
        select(m, gt) == Seq::<T>::empty(),
    decreases m.len(),
{
    if m.len() > 0 {
        let init = m.drop_last();
        assert(!gt(m[m.len() - 1]));
        assert forall|i: int| 0 <= i < init.len() implies !gt(#[trigger] init[i]) by {
            assert(!gt(m[i]));
        }
        lemma_select_none(init, gt);
    }
}

/// Walking two pages: the first page, and the page after its last key, together
/// hold the first `2 * limit` matching rows, each once and in order. A page that
/// is not full holds every matching row.
pub proof fn lemma_round_trip<T, K>(
    rows: Seq<T>,
    keep: spec_fn(T) -> bool,
    key: spec_fn(T) -> K,
    lt: spec_fn(K, K) -> bool,
    limit: int,
)
    requires
        limit > 0,
        sorted_by(rows, key, lt),
        asymmetric(lt),
    ensures
        ({
            let all = select(rows, keep);
            let first = page_answer(rows, keep, key, lt, None, limit);
            &&& first.len() < limit ==> first == all
            &&& first.len() >= limit ==> first + page_answer(rows, keep, key, lt, Some(key(first.last())), limit)
                == first_n(all, 2 * limit)
        }),
{
    let all = select(rows, keep);
    let first = page_answer(rows, keep, key, lt, None, limit);
    if first.len() >= limit {
        assert(all.len() >= limit);
        assert(first == all.take(limit) || first == all);
        assert(first.last() == all[limit - 1]);
        lemma_select_sorted(rows, keep, key, lt);
        let k = key(all[limit - 1]);
        let q = |r: T| lt(k, key(r));
        lemma_select_select(rows, keep, q);
        lemma_select_after(all, key, lt, limit);
        let after = select(rows, |r: T| keep(r) && lt(k, key(r)));
        assert((|r: T| keep(r) && q(r)) =~= (|r: T| keep(r) && lt(k, key(r))));
        assert(select(all, q) == after);
        assert(after == all.skip(limit));
        assert(first + first_n(after, limit) =~= first_n(all, 2 * limit));
    }
}

/// A page with fewer items than the limit carries no next key; a page with
/// exactly `limit` items carries one.
pub proof fn lemma_next_key_boundary(len: nat, limit: i64)
    requires
        limit > 0,
    ensures
        len < limit ==> !next_key_due(len, limit as int),
        len == limit ==> next_key_due(len, limit as int),
{
}

} // verus!
