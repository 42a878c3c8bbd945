//! Mapping a fallible function over a sequence: all results in order, or the
//! first failure.

use vstd::prelude::*;

verus! {

/// Applies `f` to every element in order. The result is the sequence of the
/// values, or the error of the first element on which `f` fails.
pub open spec fn try_map<A, B, E>(s: Seq<A>, f: spec_fn(A) -> Result<B, E>) -> Result<Seq<B>, E>
    decreases s.len(),
{
    if s.len() == 0 {
        Ok(Seq::empty())
    } else {
        match try_map(s.drop_last(), f) {
            Err(e) => Err(e),
            Ok(done) => match f(s.last()) {
                Ok(b) => Ok(done.push(b)),
                Err(e) => Err(e),
            },
        }
    }
}

/// One more element: the result for the first `k + 1` elements, from the
/// result for the first `k`.
pub proof fn lemma_try_map_step<A, B, E>(s: Seq<A>, f: spec_fn(A) -> Result<B, E>, k: int)
    requires
        0 <= k < s.len(),
    ensures
        try_map(s.take(k + 1), f) == (match try_map(s.take(k), f) {
            Err(e) => Err(e),
            Ok(done) => match f(s[k]) {
                Ok(b) => Ok(done.push(b)),
                Err(e) => Err::<Seq<B>, E>(e),
            },
        }),
{
    assert(s.take(k + 1).drop_last() =~= s.take(k));
    assert(s.take(k + 1).last() == s[k]);
}

/// A failure on a prefix is the failure on the whole.
pub proof fn lemma_try_map_failed<A, B, E>(s: Seq<A>, f: spec_fn(A) -> Result<B, E>, k: int)
    requires
        0 <= k <= s.len(),
        try_map(s.take(k), f) is Err,
    ensures
        try_map(s, f) == try_map(s.take(k), f),
    decreases s.len() - k,
{
    if k == s.len() {
        assert(s.take(k) =~= s);
    } else {
        lemma_try_map_step(s, f, k);
        lemma_try_map_failed(s, f, k + 1);
    }
}

/// On success every element has its value at its own position.
pub proof fn lemma_try_map_ok<A, B, E>(s: Seq<A>, f: spec_fn(A) -> Result<B, E>)
    requires
        try_map(s, f) is Ok,
    ensures
        try_map(s, f)->Ok_0.len() == s.len(),
        forall|i: int|
            0 <= i < s.len() ==> f(#[trigger] s[i]) == Ok::<B, E>(try_map(s, f)->Ok_0[i]),
    decreases s.len(),
{
    if s.len() > 0 {
        lemma_try_map_ok(s.drop_last(), f);
        let done = try_map(s.drop_last(), f)->Ok_0;
        assert forall|i: int| 0 <= i < s.len() implies f(#[trigger] s[i]) == Ok::<B, E>(
            try_map(s, f)->Ok_0[i],
        ) by {
            if i < s.len() - 1 {
                assert(s.drop_last()[i] == s[i]);
            }
        }
    }
}

/// One failing element makes the whole fail.
pub proof fn lemma_try_map_err<A, B, E>(s: Seq<A>, f: spec_fn(A) -> Result<B, E>, i: int)
    requires
        0 <= i < s.len(),
        f(s[i]) is Err,
    ensures
        try_map(s, f) is Err,
    decreases s.len(),
{
    if i < s.len() - 1 {
        assert(s.drop_last()[i] == s[i]);
        lemma_try_map_err(s.drop_last(), f, i);
    }
}

/// Sequences whose elements give the same results give the same result.
pub proof fn lemma_try_map_pointwise<A, B, E>(s: Seq<A>, t: Seq<A>, f: spec_fn(A) -> Result<B, E>)
    requires
        s.len() == t.len(),
        forall|i: int| 0 <= i < s.len() ==> f(#[trigger] s[i]) == f(t[i]),
    ensures
        try_map(s, f) == try_map(t, f),
    decreases s.len(),
{
    if s.len() > 0 {
        assert forall|i: int| 0 <= i < s.drop_last().len() implies f(#[trigger] s.drop_last()[i])
            == f(t.drop_last()[i]) by {
            assert(s.drop_last()[i] == s[i]);
            assert(t.drop_last()[i] == t[i]);
        }
        lemma_try_map_pointwise(s.drop_last(), t.drop_last(), f);
        assert(f(s.last()) == f(t.last())) by {
            assert(s.last() == s[s.len() - 1]);
            assert(t.last() == t[t.len() - 1]);
        }
    }
}

} // verus!
