//! Facts about filtered sequences.
use vstd::prelude::*;

verus! {

/// One step of filtering: the first `i + 1` elements against the first `i`.
pub(crate) proof fn lemma_filter_step<A>(s: Seq<A>, i: int, keep: spec_fn(A) -> bool)
    requires
        0 <= i < s.len(),
    ensures
        s.take(i + 1).filter(keep) == if keep(s[i]) {
            s.take(i).filter(keep).push(s[i])
        } else {
            s.take(i).filter(keep)
        },
{
    reveal(Seq::filter);
    assert(s.take(i + 1).drop_last() =~= s.take(i));
}

/// A filtered prefix is no longer than the filtered whole.
pub(crate) proof fn lemma_filter_prefix<A>(s: Seq<A>, i: int, keep: spec_fn(A) -> bool)
    requires
        0 <= i <= s.len(),
    ensures
        s.take(i).filter(keep).len() <= s.filter(keep).len(),
    decreases s.len() - i,
{
    if i < s.len() {
        lemma_filter_step(s, i, keep);
        lemma_filter_prefix(s, i + 1, keep);
    } else {
        assert(s.take(i) =~= s);
    }
}

/// A narrower filter keeps no more.
pub(crate) proof fn lemma_filter_narrower<A>(
    s: Seq<A>,
    narrow: spec_fn(A) -> bool,
    wide: spec_fn(A) -> bool,
)
    requires
        forall|a: A| #[trigger] narrow(a) ==> wide(a),
    ensures
        s.filter(narrow).len() <= s.filter(wide).len(),
    decreases s.len(),
{
    reveal(Seq::filter);
    if s.len() > 0 {
        lemma_filter_narrower(s.drop_last(), narrow, wide);
    }
}

/// Two filters that agree on every element keep the same.
pub(crate) proof fn lemma_filter_same<A>(
    s: Seq<A>,
    one: spec_fn(A) -> bool,
    other: spec_fn(A) -> bool,
)
    requires
        forall|i: int| 0 <= i < s.len() ==> one(#[trigger] s[i]) == other(s[i]),
    ensures
        s.filter(one) == s.filter(other),
    decreases s.len(),
{
    reveal(Seq::filter);
    if s.len() > 0 {
        lemma_filter_same(s.drop_last(), one, other);
    }
}

/// What a filter keeps and what it drops make up the whole.
pub(crate) proof fn lemma_filter_partition<A>(
    s: Seq<A>,
    keep: spec_fn(A) -> bool,
    drop: spec_fn(A) -> bool,
)
    requires
        forall|a: A| #[trigger] keep(a) == !drop(a),
    ensures
        s.filter(keep).len() + s.filter(drop).len() == s.len(),
    decreases s.len(),
{
    reveal(Seq::filter);
    if s.len() > 0 {
        lemma_filter_partition(s.drop_last(), keep, drop);
    }
}

/// Two filters that never keep the same element keep no more than a wider one.
pub(crate) proof fn lemma_filter_disjoint<A>(
    s: Seq<A>,
    one: spec_fn(A) -> bool,
    other: spec_fn(A) -> bool,
    wide: spec_fn(A) -> bool,
)
    requires
        forall|a: A| #[trigger] one(a) ==> wide(a) && !other(a),
        forall|a: A| #[trigger] other(a) ==> wide(a),
    ensures
        s.filter(one).len() + s.filter(other).len() <= s.filter(wide).len(),
    decreases s.len(),
{
    reveal(Seq::filter);
    if s.len() > 0 {
        lemma_filter_disjoint(s.drop_last(), one, other, wide);
    }
}

} // verus!
