use vstd::prelude::*;

verus! {

/// The values that all outcomes hold, in order, where every outcome holds one;
/// else the error of the first outcome that holds none.
pub open spec fn collected<T, E>(outcomes: Seq<Result<T, E>>) -> Result<Seq<T>, E>
    decreases outcomes.len(),
{
    if outcomes.len() == 0 {
        Ok(Seq::empty())
    } else {
        match collected(outcomes.drop_last()) {
            Ok(cs) => match outcomes.last() {
                Ok(c) => Ok(cs.push(c)),
                Err(e) => Err(e),
            },
            Err(e) => Err(e),
        }
    }
}

/// Collects the values of the outcomes, in order, stopping at the first error,
/// as `collect::<Result<Vec<_>, _>>()` does.
pub fn collect_all<T, E>(outcomes: Vec<Result<T, E>>) -> (r: Result<Vec<T>, E>)
    ensures
        match r {
            Ok(v) => collected(outcomes@) == Ok::<Seq<T>, E>(v@),
            Err(e) => collected(outcomes@) == Err::<Seq<T>, E>(e),
        },
{
    let ghost all = outcomes@;
    let mut out: Vec<T> = Vec::new();
    let mut rest = outcomes;
    let n = rest.len();
    let mut i: usize = 0;
    assert(all.take(0) =~= Seq::<Result<T, E>>::empty());
    while i < n
        invariant
            n == all.len(),
            all == outcomes@,
            i <= n,
            rest@ == all.skip(i as int),
            collected(all.take(i as int)) == Ok::<Seq<T>, E>(out@),
        decreases n - i,
    {
        let next = rest.remove(0);
        assert(next == all[i as int]);
        assert(rest@ =~= all.skip(i + 1));
        assert(all.take(i + 1).drop_last() =~= all.take(i as int));
        match next {
            Ok(c) => {
                out.push(c);
            },
            Err(e) => {
                proof {
                    lemma_collected_stops(all, i as int);
                    assert(all[i as int] == Err::<T, E>(e));
                    assert(collected(all) == Err::<Seq<T>, E>(e));
                }
                return Err(e);
            },
        }
        i = i + 1;
    }
    assert(all.take(n as int) =~= all);
    Ok(out)
}

/// Once an outcome is an error, no later outcome changes the result.
proof fn lemma_collected_stops<T, E>(all: Seq<Result<T, E>>, i: int)
    requires
        0 <= i < all.len(),
        collected(all.take(i)) is Ok,
        all[i] is Err,
    ensures
        collected(all) == Err::<Seq<T>, E>(all[i]->Err_0),
    decreases all.len() - i,
{
    assert(all.take(i + 1).drop_last() =~= all.take(i));
    if i + 1 == all.len() {
        assert(all.take(i + 1) =~= all);
    } else {
        lemma_collected_err_prefix(all, i + 1);
    }
}

/// An error of a prefix is the error of the whole sequence.
proof fn lemma_collected_err_prefix<T, E>(all: Seq<Result<T, E>>, k: int)
    requires
        0 <= k <= all.len(),
        collected(all.take(k)) is Err,
    ensures
        collected(all) == collected(all.take(k)),
    decreases all.len() - k,
{
    if k == all.len() {
        assert(all.take(k) =~= all);
    } else {
        assert(all.take(k + 1).drop_last() =~= all.take(k));
        lemma_collected_err_prefix(all, k + 1);
    }
}

/// Collecting succeeds exactly when every outcome holds a value, and then gives
/// the values in the order of the outcomes.
pub proof fn lemma_collected_ok<T, E>(outcomes: Seq<Result<T, E>>)
    ensures
        (collected(outcomes) is Ok) <==> (forall|i: int| 0 <= i < outcomes.len() ==> #[trigger] outcomes[i] is Ok),
        collected(outcomes) is Ok ==> {
            let vs = collected(outcomes)->Ok_0;
            &&& vs.len() == outcomes.len()
            &&& forall|i: int| 0 <= i < outcomes.len() ==> #[trigger] outcomes[i] == Ok::<T, E>(vs[i])
        },
    decreases outcomes.len(),
{
    if outcomes.len() > 0 {
        let prefix = outcomes.drop_last();
        let n = outcomes.len() - 1;
        lemma_collected_ok(prefix);
        assert forall|i: int| 0 <= i < prefix.len() implies #[trigger] prefix[i] == outcomes[i] by {}
        match collected(prefix) {
            Ok(vs0) => {
                match outcomes.last() {
                    Ok(c) => {
                        let vs = vs0.push(c);
                        assert(collected(outcomes) == Ok::<Seq<T>, E>(vs));
                        assert forall|i: int| 0 <= i < outcomes.len() implies #[trigger] outcomes[i] == Ok::<T, E>(vs[i]) by {
                            if i < n {
                                assert(prefix[i] == Ok::<T, E>(vs0[i]));
                            }
                        }
                    },
                    Err(e) => {
                        assert(!(outcomes[n] is Ok));
                    },
                }
            },
            Err(e) => {
                let i = choose|i: int| 0 <= i < prefix.len() && !(#[trigger] prefix[i] is Ok);
                assert(!(outcomes[i] is Ok));
            },
        }
    }
}

} // verus!
