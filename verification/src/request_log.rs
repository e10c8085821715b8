//! Histories of requests made of a device, each with whether it succeeded,
//! and what it means to carry out a plan of requests on one.
use vstd::prelude::*;

verus! {

/// The requests of a history, without their outcomes.
pub open spec fn requests_of<T>(log: Seq<(T, bool)>) -> Seq<T> {
    log.map_values(|e: (T, bool)| e.0)
}

/// `after` is `before` followed by the first `m` requests of `plan`, all
/// of which succeeded.
pub open spec fn ran_ok_prefix<T>(before: Seq<(T, bool)>, after: Seq<(T, bool)>, plan: Seq<T>, m: int) -> bool {
    &&& 0 <= m <= plan.len()
    &&& after.len() == before.len() + m
    &&& after.subrange(0, before.len() as int) == before
    &&& forall|k: int| before.len() <= k < after.len() ==> #[trigger] after[k] == (plan[k - before.len()], true)
}

/// `after` is `before` followed by the requests of `plan` in order, up to
/// and including the first that failed, or all of them if none failed;
/// `ok` says that none failed.
pub open spec fn ran_until_failure<T>(before: Seq<(T, bool)>, after: Seq<(T, bool)>, plan: Seq<T>, ok: bool) -> bool {
    let n = before.len();
    &&& n <= after.len() <= n + plan.len()
    &&& after.subrange(0, n as int) == before
    &&& forall|k: int| n <= k < after.len() ==> #[trigger] after[k].0 == plan[k - n]
    &&& forall|k: int| n <= k < after.len() - 1 ==> #[trigger] after[k].1
    &&& ok <==> (after.len() == n + plan.len() && (after.len() > n ==> after.last().1))
    &&& after.len() < n + plan.len() ==> after.len() > n && !after.last().1
}

/// Every request of the history from position `n` on succeeded.
pub open spec fn succeeded_from<T>(log: Seq<(T, bool)>, n: int) -> bool {
    forall|k: int| n <= k < log.len() ==> #[trigger] log[k].1
}

/// One more request keeps the run of successes exactly when it succeeds.
pub proof fn lemma_succeeded_push<T>(log: Seq<(T, bool)>, n: int, x: T, ok: bool)
    requires
        0 <= n <= log.len(),
    ensures
        succeeded_from(log.push((x, ok)), n) == (succeeded_from(log, n) && ok),
{
    let l2 = log.push((x, ok));
    if succeeded_from(l2, n) {
        assert forall|k: int| n <= k < log.len() implies #[trigger] log[k].1 by {
            assert(l2[k] == log[k]);
        }
        assert(l2[log.len() as int].1);
    }
    if succeeded_from(log, n) && ok {
        assert forall|k: int| n <= k < l2.len() implies #[trigger] l2[k].1 by {
            if k < log.len() {
                assert(l2[k] == log[k]);
            }
        }
    }
}

/// An empty plan is carried out by making no request.
pub proof fn lemma_empty_plan<T>(log: Seq<(T, bool)>)
    ensures
        ran_until_failure(log, log, Seq::<T>::empty(), true),
{
    assert(log.subrange(0, log.len() as int) =~= log);
}

/// Nothing of `plan` has been made yet.
pub proof fn lemma_plan_start<T>(before: Seq<(T, bool)>, plan: Seq<T>)
    ensures
        ran_ok_prefix(before, before, plan, 0),
{
    assert(before.subrange(0, before.len() as int) =~= before);
}

/// One more request of `plan` made after a run of successes: a success
/// extends the run, a failure ends it.
pub proof fn lemma_plan_step<T>(before: Seq<(T, bool)>, after: Seq<(T, bool)>, plan: Seq<T>, m: int, ok: bool)
    requires
        ran_ok_prefix(before, after, plan, m),
        m < plan.len(),
    ensures
        ok ==> ran_ok_prefix(before, after.push((plan[m], ok)), plan, m + 1),
        !ok ==> ran_until_failure(before, after.push((plan[m], ok)), plan, false),
{
    let a2 = after.push((plan[m], ok));
    let n = before.len();
    assert(a2.subrange(0, n as int) =~= after.subrange(0, n as int));
    assert forall|k: int| n <= k < a2.len() implies #[trigger] a2[k].0 == plan[k - n] by {
        if k < after.len() {
            assert(after[k] == (plan[k - n], true));
        }
    }
    assert forall|k: int| n <= k < a2.len() - 1 implies #[trigger] a2[k].1 by {
        assert(after[k] == (plan[k - n], true));
    }
}

/// A run of successes through the whole plan carried it out.
pub proof fn lemma_plan_done<T>(before: Seq<(T, bool)>, after: Seq<(T, bool)>, plan: Seq<T>)
    requires
        ran_ok_prefix(before, after, plan, plan.len() as int),
    ensures
        ran_until_failure(before, after, plan, true),
{
    let n = before.len();
    assert forall|k: int| n <= k < after.len() implies #[trigger] after[k].0 == plan[k - n] by {
        assert(after[k] == (plan[k - n], true));
    }
    assert forall|k: int| n <= k < after.len() - 1 implies #[trigger] after[k].1 by {
        assert(after[k] == (plan[k - n], true));
    }
    if after.len() > n {
        assert(after[after.len() - 1] == (plan[after.len() - 1 - n], true));
    }
}

} // verus!
