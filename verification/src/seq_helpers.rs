//! Small reusable facts about `Seq::filter`, which the registry passes
//! (boundary culling, projectile expiry, despawning by id) are specified
//! with.

use vstd::prelude::*;

verus! {

/// Pairwise distinctness of a key drawn from each element.
pub open spec fn distinct_by<T>(s: Seq<T>, key: spec_fn(T) -> u64) -> bool {
    forall|i: int, j: int| 0 <= i < j < s.len() ==> key(s[i]) != key(s[j])
}

/// Every element of a filtered sequence comes from the original and satisfies
/// the predicate.
pub proof fn lemma_filter_source<T>(s: Seq<T>, pred: spec_fn(T) -> bool, e: T)
    requires
        s.filter(pred).contains(e),
    ensures
        s.contains(e),
        pred(e),
    decreases s.len(),
{
    reveal(Seq::filter);
    if s.len() > 0 {
        let d = s.drop_last();
        if pred(s.last()) && e == s.last() {
            assert(s[s.len() - 1] == e);
        } else {
            assert(d.filter(pred).contains(e));
            lemma_filter_source(d, pred, e);
            let i = choose|i: int| 0 <= i < d.len() && d[i] == e;
            assert(s[i] == e);
        }
    }
}

/// An element of the original that satisfies the predicate stays in the
/// filtered sequence, and nothing else enters it.
pub proof fn lemma_filter_membership<T>(s: Seq<T>, pred: spec_fn(T) -> bool, e: T)
    ensures
        s.filter(pred).contains(e) <==> (s.contains(e) && pred(e)),
{
    if s.filter(pred).contains(e) {
        lemma_filter_source(s, pred, e);
    }
    if s.contains(e) && pred(e) {
        let i = choose|i: int| 0 <= i < s.len() && s[i] == e;
        Seq::lemma_filter_contains(s, pred, i);
    }
}

/// How one loop iteration extends a filtered prefix.
pub proof fn lemma_filter_step<T>(s: Seq<T>, pred: spec_fn(T) -> bool, i: int)
    requires
        0 <= i < s.len(),
    ensures
        pred(s[i]) ==> s.subrange(0, i + 1).filter(pred) == s.subrange(0, i).filter(pred).push(
            s[i],
        ),
        !pred(s[i]) ==> s.subrange(0, i + 1).filter(pred) == s.subrange(0, i).filter(pred),
{
    reveal(Seq::filter);
    let t = s.subrange(0, i + 1);
    assert(t.drop_last() =~= s.subrange(0, i));
    assert(t.last() == s[i]);
}

/// Filtering keeps keys pairwise distinct.
pub proof fn lemma_filter_distinct_by<T>(s: Seq<T>, pred: spec_fn(T) -> bool, key: spec_fn(T) -> u64)
    requires
        distinct_by(s, key),
    ensures
        distinct_by(s.filter(pred), key),
    decreases s.len(),
{
    reveal(Seq::filter);
    if s.len() > 0 {
        let d = s.drop_last();
        assert(distinct_by(d, key));
        lemma_filter_distinct_by(d, pred, key);
        let rest = d.filter(pred);
        if pred(s.last()) {
            let out = rest.push(s.last());
            assert forall|i: int, j: int| 0 <= i < j < out.len() implies key(out[i]) != key(
                out[j],
            ) by {
                if j == out.len() - 1 {
                    assert(rest.contains(out[i]));
                    lemma_filter_source(d, pred, out[i]);
                    let k = choose|k: int| 0 <= k < d.len() && d[k] == out[i];
                    assert(s[k] == out[i]);
                    assert(out[j] == s[s.len() - 1]);
                } else {
                    assert(key(rest[i]) != key(rest[j]));
                }
            }
        }
    }
}

/// Filtering twice with the same predicate filters once.
pub proof fn lemma_filter_idempotent<T>(s: Seq<T>, pred: spec_fn(T) -> bool)
    ensures
        s.filter(pred).filter(pred) == s.filter(pred),
    decreases s.len(),
{
    reveal(Seq::filter);
    if s.len() > 0 {
        let d = s.drop_last();
        lemma_filter_idempotent(d, pred);
        if pred(s.last()) {
            let rest = d.filter(pred);
            let out = rest.push(s.last());
            assert(out.drop_last() =~= rest);
            assert(out.last() == s.last());
        }
    }
}

/// Removing the one element that fails the predicate shortens the sequence by
/// exactly one.
pub proof fn lemma_filter_len_remove_one<T>(s: Seq<T>, pred: spec_fn(T) -> bool, at: int)
    requires
        0 <= at < s.len(),
        !pred(s[at]),
        forall|j: int| 0 <= j < s.len() && j != at ==> pred(s[j]),
    ensures
        s.filter(pred).len() == s.len() - 1,
    decreases s.len(),
{
    reveal(Seq::filter);
    let d = s.drop_last();
    if at == s.len() - 1 {
        lemma_filter_all(d, pred);
    } else {
        lemma_filter_len_remove_one(d, pred, at);
    }
}

/// A sequence whose elements all satisfy the predicate is unchanged by the
/// filter.
pub proof fn lemma_filter_all<T>(s: Seq<T>, pred: spec_fn(T) -> bool)
    requires
        forall|j: int| 0 <= j < s.len() ==> pred(s[j]),
    ensures
        s.filter(pred) == s,
    decreases s.len(),
{
    reveal(Seq::filter);
    if s.len() > 0 {
        let d = s.drop_last();
        lemma_filter_all(d, pred);
        assert(s.filter(pred) =~= s);
    }
}

} // verus!
