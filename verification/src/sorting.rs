//! What a stable sort by a text key produces.

use vstd::prelude::*;
use crate::text::{lemma_lex_irreflexive, lemma_lex_le_transitive, lemma_lex_total, lex_le, lex_less};

verus! {

/// The elements are in non-decreasing key order.
pub open spec fn sorted_by<T>(s: Seq<T>, key: spec_fn(T) -> Seq<char>) -> bool {
    forall|i: int, j: int| 0 <= i < j < s.len() ==> lex_le(key(#[trigger] s[i]), key(#[trigger] s[j]))
}

/// Holds of the elements whose key is `k`.
pub open spec fn has_key<T>(key: spec_fn(T) -> Seq<char>, k: Seq<char>) -> spec_fn(T) -> bool {
    |x: T| key(x) == k
}

/// For every key, the elements with that key come in the same order in both.
pub open spec fn same_order_per_key<T>(a: Seq<T>, b: Seq<T>, key: spec_fn(T) -> Seq<char>) -> bool {
    forall|k: Seq<char>| #[trigger] a.filter(has_key(key, k)) == b.filter(has_key(key, k))
}

/// `res` is `input` sorted by key, keeping the input order among equal keys.
pub open spec fn stable_sort_of<T>(res: Seq<T>, input: Seq<T>, key: spec_fn(T) -> Seq<char>) -> bool {
    sorted_by(res, key) && same_order_per_key(res, input, key)
}

/// Inserting `e` at `p`, after every element with a key no greater and
/// before every element with a greater key, keeps the order sorted and puts
/// `e` last among the elements with its key.
pub proof fn lemma_insert_sorted<T>(r: Seq<T>, p: int, e: T, key: spec_fn(T) -> Seq<char>)
    requires
        sorted_by(r, key),
        0 <= p <= r.len(),
        forall|i: int| 0 <= i < p ==> lex_le(key(#[trigger] r[i]), key(e)),
        forall|j: int| p <= j < r.len() ==> lex_less(key(e), key(#[trigger] r[j])),
    ensures
        sorted_by(r.insert(p, e), key),
        forall|k: Seq<char>| #[trigger] r.insert(p, e).filter(has_key(key, k)) == if key(e) == k {
            r.filter(has_key(key, k)).push(e)
        } else {
            r.filter(has_key(key, k))
        },
{
    let s = r.insert(p, e);
    assert forall|i: int, j: int| 0 <= i < j < s.len() implies lex_le(
        key(#[trigger] s[i]),
        key(#[trigger] s[j]),
    ) by {
        lemma_lex_irreflexive(key(e));
        if j < p {
            assert(s[i] == r[i] && s[j] == r[j]);
        } else if j == p {
            assert(s[i] == r[i]);
        } else if i == p {
            assert(s[j] == r[j - 1]);
            lemma_lex_total(key(e), key(r[j - 1]));
            if lex_less(key(r[j - 1]), key(e)) {
                lemma_lex_transitive_lt(key(r[j - 1]), key(e));
            }
        } else if i < p {
            assert(s[i] == r[i] && s[j] == r[j - 1]);
            assert(lex_le(key(r[i]), key(e)));
            assert(lex_less(key(e), key(r[j - 1])));
            lemma_lt_le(key(e), key(r[j - 1]));
            lemma_lex_le_transitive(key(r[i]), key(e), key(r[j - 1]));
        } else {
            assert(s[i] == r[i - 1] && s[j] == r[j - 1]);
        }
    }
    assert forall|k: Seq<char>| #[trigger] r.insert(p, e).filter(has_key(key, k)) == if key(e) == k {
        r.filter(has_key(key, k)).push(e)
    } else {
        r.filter(has_key(key, k))
    } by {
        let f = has_key(key, k);
        assert(r.insert(p, e) =~= r.take(p) + seq![e] + r.skip(p));
        assert(r =~= r.take(p) + r.skip(p));
        Seq::filter_distributes_over_add(r.take(p) + seq![e], r.skip(p), f);
        Seq::filter_distributes_over_add(r.take(p), seq![e], f);
        Seq::filter_distributes_over_add(r.take(p), r.skip(p), f);
        assert(seq![e] =~= Seq::<T>::empty().push(e));
        Seq::<T>::empty().lemma_filter_push(e, f);
        assert(Seq::<T>::empty().filter(f) =~= Seq::<T>::empty()) by {
            reveal(Seq::filter);
        }
        if key(e) == k {
            // nothing after p has the key of e
            assert(r.skip(p).filter(f) =~= Seq::<T>::empty()) by {
                let t = r.skip(p);
                assert forall|j: int| 0 <= j < t.len() implies !f(#[trigger] t[j]) by {
                    assert(t[j] == r[p + j]);
                    lemma_lex_irreflexive(key(e));
                }
                lemma_filter_none(t, f);
            }
            assert(r.take(p).filter(f) + seq![e] + Seq::<T>::empty() =~= (r.take(p).filter(f)
                + Seq::<T>::empty()).push(e));
        }
    }
}

proof fn lemma_filter_none<T>(t: Seq<T>, f: spec_fn(T) -> bool)
    requires
        forall|j: int| 0 <= j < t.len() ==> !f(#[trigger] t[j]),
    ensures
        t.filter(f) =~= Seq::<T>::empty(),
    decreases t.len(),
{
    reveal(Seq::filter);
    if t.len() > 0 {
        assert forall|j: int| 0 <= j < t.drop_last().len() implies !f(#[trigger] t.drop_last()[j]) by {
            assert(t.drop_last()[j] == t[j]);
        }
        lemma_filter_none(t.drop_last(), f);
        assert(!f(t[t.len() - 1]));
    }
}

proof fn lemma_lt_le(a: Seq<char>, b: Seq<char>)
    requires
        lex_less(a, b),
    ensures
        lex_le(a, b),
{
    if lex_less(b, a) {
        crate::text::lemma_lex_transitive(a, b, a);
        lemma_lex_irreflexive(a);
    }
}

proof fn lemma_lex_transitive_lt(a: Seq<char>, b: Seq<char>)
    requires
        lex_less(a, b),
    ensures
        lex_le(a, b),
{
    lemma_lt_le(a, b);
}

} // verus!
