//! Small sequence helpers: the first index satisfying a predicate, and the
//! number of elements satisfying one, with the lemmas the registry proofs
//! need.

use vstd::prelude::*;

verus! {

/// Index of the first element of `s` satisfying `p`, or `s.len()` if none
/// does.
pub open spec fn first_where<T>(s: Seq<T>, p: spec_fn(T) -> bool) -> int
    decreases s.len(),
{
    if s.len() == 0 {
        0
    } else if p(s[0]) {
        0
    } else {
        1 + first_where(s.drop_first(), p)
    }
}

pub proof fn lemma_first_where_bounds<T>(s: Seq<T>, p: spec_fn(T) -> bool)
    ensures
        0 <= first_where(s, p) <= s.len(),
        forall|j: int| 0 <= j < first_where(s, p) ==> !p(s[j]),
        first_where(s, p) < s.len() ==> p(s[first_where(s, p)]),
    decreases s.len(),
{
    if s.len() > 0 && !p(s[0]) {
        lemma_first_where_bounds(s.drop_first(), p);
        assert forall|j: int| 0 <= j < first_where(s, p) implies !p(s[j]) by {
            if j > 0 {
                assert(s.drop_first()[j - 1] == s[j]);
            }
        }
        if first_where(s, p) < s.len() {
            assert(s.drop_first()[first_where(s, p) - 1] == s[first_where(s, p)]);
        }
    }
}

/// `first_where` is the unique index below which nothing satisfies `p` and at
/// which, if it is in range, `p` holds.
pub proof fn lemma_first_where_is<T>(s: Seq<T>, p: spec_fn(T) -> bool, i: int)
    requires
        0 <= i <= s.len(),
        forall|j: int| 0 <= j < i ==> !p(s[j]),
        i < s.len() ==> p(s[i]),
    ensures
        first_where(s, p) == i,
{
    lemma_first_where_bounds(s, p);
    let f = first_where(s, p);
    if f < i {
        assert(!p(s[f]));
    }
    if f > i {
        assert(i < s.len());
        assert(!p(s[i]));
    }
}

/// How many elements of `s` satisfy `p`.
pub open spec fn count_where<T>(s: Seq<T>, p: spec_fn(T) -> bool) -> nat
    decreases s.len(),
{
    if s.len() == 0 {
        0
    } else {
        (if p(s[0]) {
            1nat
        } else {
            0nat
        }) + count_where(s.drop_first(), p)
    }
}

pub proof fn lemma_count_where_le_len<T>(s: Seq<T>, p: spec_fn(T) -> bool)
    ensures
        count_where(s, p) <= s.len(),
    decreases s.len(),
{
    if s.len() > 0 {
        lemma_count_where_le_len(s.drop_first(), p);
    }
}

pub proof fn lemma_count_where_insert<T>(s: Seq<T>, p: spec_fn(T) -> bool, i: int, t: T)
    requires
        0 <= i <= s.len(),
    ensures
        count_where(s.insert(i, t), p) == count_where(s, p) + (if p(t) {
            1nat
        } else {
            0nat
        }),
    decreases s.len(),
{
    let s2 = s.insert(i, t);
    if i == 0 {
        assert(s2.drop_first() =~= s);
    } else {
        assert(s.len() > 0);
        assert(s2[0] == s[0]);
        lemma_count_where_insert(s.drop_first(), p, i - 1, t);
        assert(s2.drop_first() =~= s.drop_first().insert(i - 1, t));
    }
}

pub proof fn lemma_count_where_update<T>(s: Seq<T>, p: spec_fn(T) -> bool, i: int, t: T)
    requires
        0 <= i < s.len(),
    ensures
        count_where(s.update(i, t), p) + (if p(s[i]) {
            1nat
        } else {
            0nat
        }) == count_where(s, p) + (if p(t) {
            1nat
        } else {
            0nat
        }),
    decreases s.len(),
{
    let s2 = s.update(i, t);
    if i == 0 {
        assert(s2[0] == t);
        assert(s2.drop_first() =~= s.drop_first());
    } else {
        assert(s2[0] == s[0]);
        lemma_count_where_update(s.drop_first(), p, i - 1, t);
        assert(s2.drop_first() =~= s.drop_first().update(i - 1, t));
    }
}

/// Counting a prefix one element longer adds that element's contribution.
pub proof fn lemma_count_where_take_succ<T>(s: Seq<T>, p: spec_fn(T) -> bool, i: int)
    requires
        0 <= i < s.len(),
    ensures
        count_where(s.take(i + 1), p) == count_where(s.take(i), p) + (if p(s[i]) {
            1nat
        } else {
            0nat
        }),
{
    assert(s.take(i + 1) =~= s.take(i).insert(i, s[i]));
    lemma_count_where_insert(s.take(i), p, i, s[i]);
}

pub proof fn lemma_count_where_take_all<T>(s: Seq<T>, p: spec_fn(T) -> bool)
    ensures
        count_where(s.take(s.len() as int), p) == count_where(s, p),
{
    assert(s.take(s.len() as int) =~= s);
}

} // verus!
