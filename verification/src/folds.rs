//! Left folds over lists that stop at the first error.
use vstd::prelude::*;

verus! {

/// Runs `f` over the elements of `s` in order, starting from `init`; the first error stops it.
pub open spec fn fold_list<X, A, E>(s: Seq<X>, init: A, f: spec_fn(A, X) -> Result<A, E>) -> Result<A, E>
    decreases s.len(),
{
    if s.len() == 0 {
        Ok(init)
    } else {
        match fold_list(s.drop_last(), init, f) {
            Err(e) => Err(e),
            Ok(acc) => f(acc, s.last()),
        }
    }
}

/// One more element of a fold.
pub proof fn lemma_list_next<X, A, E>(s: Seq<X>, init: A, f: spec_fn(A, X) -> Result<A, E>, i: int)
    requires
        0 <= i < s.len(),
    ensures
        fold_list(s.take(i + 1), init, f) == (match fold_list(s.take(i), init, f) {
            Err(e) => Err(e),
            Ok(acc) => f(acc, s[i]),
        }),
{
    assert(s.take(i + 1).drop_last() =~= s.take(i));
}

/// Once a fold has failed on a prefix, it fails in the same way on the whole list.
pub proof fn lemma_list_stops<X, A, E>(s: Seq<X>, init: A, f: spec_fn(A, X) -> Result<A, E>, i: int)
    requires
        0 <= i <= s.len(),
        fold_list(s.take(i), init, f) is Err,
    ensures
        fold_list(s, init, f) == fold_list(s.take(i), init, f),
    decreases s.len() - i,
{
    if i < s.len() {
        lemma_list_next(s, init, f, i);
        lemma_list_stops(s, init, f, i + 1);
    } else {
        assert(s.take(i) =~= s);
    }
}

/// A fold over the whole list is a fold over its full prefix.
pub proof fn lemma_list_all<X, A, E>(s: Seq<X>, init: A, f: spec_fn(A, X) -> Result<A, E>)
    ensures
        fold_list(s.take(s.len() as int), init, f) == fold_list(s, init, f),
{
    assert(s.take(s.len() as int) =~= s);
}

} // verus!
