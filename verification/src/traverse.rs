//! Mapping a fallible function over a sequence, in order, stopping at the
//! first failure.

use vstd::prelude::*;

verus! {

/// An executable result agrees with a result of the model: both fail with the
/// same error, or both succeed and the model's value is the view of the
/// executable one.
pub open spec fn agrees<T: View, E>(out: Result<T, E>, expected: Result<T::V, E>) -> bool {
    match out {
        Ok(v) => expected == Ok::<T::V, E>(v@),
        Err(err) => expected == Err::<T::V, E>(err),
    }
}

/// `f` succeeds on every item of `s` before position `n`.
pub open spec fn all_ok_before<A, B, E>(s: Seq<A>, f: spec_fn(A) -> Result<B, E>, n: int) -> bool {
    forall|j: int| 0 <= j < n ==> (#[trigger] f(s[j])) is Ok
}

/// `i` is the first position of `s` on which `f` fails.
pub open spec fn first_failure<A, B, E>(s: Seq<A>, f: spec_fn(A) -> Result<B, E>, i: int) -> bool {
    &&& 0 <= i < s.len()
    &&& f(s[i]) is Err
    &&& all_ok_before(s, f, i)
}

/// The results of `f` on the items of `s`, in the order of `s`, where `f`
/// succeeds on all of them; else the error of the first item on which it
/// fails.
pub open spec fn traverse<A, B, E>(s: Seq<A>, f: spec_fn(A) -> Result<B, E>) -> Result<Seq<B>, E> {
    if all_ok_before(s, f, s.len() as int) {
        Ok(Seq::new(s.len(), |i: int| f(s[i])->Ok_0))
    } else {
        let i = choose|i: int| first_failure(s, f, i);
        Err(f(s[i])->Err_0)
    }
}

/// A failure at `i` with none before it decides the whole traversal.
pub proof fn lemma_traverse_fails<A, B, E>(s: Seq<A>, f: spec_fn(A) -> Result<B, E>, i: int)
    requires
        first_failure(s, f, i),
    ensures
        traverse(s, f) == Err::<Seq<B>, E>(f(s[i])->Err_0),
{
    let k = choose|k: int| first_failure(s, f, k);
    assert(first_failure(s, f, k));
    assert(!all_ok_before(s, f, s.len() as int));
    if k < i {
        assert(f(s[k]) is Ok);
    }
    if i < k {
        assert(f(s[i]) is Ok);
    }
}

/// Where the traversal succeeds, the result has the length of `s` and holds
/// at each position what `f` gives for the item of `s` at that position.
pub proof fn lemma_traverse_keeps_order<A, B, E>(s: Seq<A>, f: spec_fn(A) -> Result<B, E>)
    requires
        traverse(s, f) is Ok,
    ensures
        traverse(s, f)->Ok_0.len() == s.len(),
        forall|i: int|
            0 <= i < s.len() ==> f(#[trigger] s[i]) == Ok::<B, E>(traverse(s, f)->Ok_0[i]),
{
    assert(all_ok_before(s, f, s.len() as int));
    assert forall|i: int| 0 <= i < s.len() implies f(#[trigger] s[i]) == Ok::<B, E>(
        traverse(s, f)->Ok_0[i],
    ) by {
        assert(f(s[i]) is Ok);
    }
}

/// Where `f` gives `out[i]` for each `s[i]`, the traversal gives `out`.
pub proof fn lemma_traverse_gives<A, B, E>(s: Seq<A>, f: spec_fn(A) -> Result<B, E>, out: Seq<B>)
    requires
        out.len() == s.len(),
        forall|i: int| 0 <= i < s.len() ==> f(#[trigger] s[i]) == Ok::<B, E>(out[i]),
    ensures
        traverse(s, f) == Ok::<Seq<B>, E>(out),
{
    assert(all_ok_before(s, f, s.len() as int)) by {
        assert forall|j: int| 0 <= j < s.len() implies (#[trigger] f(s[j])) is Ok by {
            assert(f(s[j]) == Ok::<B, E>(out[j]));
        }
    }
    assert(traverse(s, f)->Ok_0 =~= out);
}

/// A traversal that fails does so with the error of the first item of `s`
/// on which `f` fails.
pub proof fn lemma_traverse_failure_has_source<A, B, E>(s: Seq<A>, f: spec_fn(A) -> Result<B, E>)
    requires
        traverse(s, f) is Err,
    ensures
        exists|i: int| first_failure(s, f, i) && traverse(s, f) == Err::<Seq<B>, E>(f(s[i])->Err_0),
{
    assert(!all_ok_before(s, f, s.len() as int));
    lemma_has_first_failure(s, f, s.len() as int);
    let i = choose|i: int| first_failure(s, f, i);
    lemma_traverse_fails(s, f, i);
}

/// Some item before `n` fails, so one of them is the first to fail.
proof fn lemma_has_first_failure<A, B, E>(s: Seq<A>, f: spec_fn(A) -> Result<B, E>, n: int)
    requires
        0 <= n <= s.len(),
        !all_ok_before(s, f, n),
    ensures
        exists|i: int| first_failure(s, f, i),
    decreases n,
{
    if n == 0 {
    } else if all_ok_before(s, f, n - 1) {
        assert(f(s[n - 1]) is Err);
        assert(first_failure(s, f, n - 1));
    } else {
        lemma_has_first_failure(s, f, n - 1);
    }
}

} // verus!
