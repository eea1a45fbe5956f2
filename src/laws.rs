//! What holds of every run of the cancellation state and its computations.
use vstd::prelude::*;

use crate::future::{poll_spec, release_spec, new_spec, CancellationTokenFuture, Poll};
use crate::state::{
    cancel_spec, ids_distinct, is_registered, other_than, pending_wakes, without,
    CancellationState,
};

verus! {

/// Holds of the wakes that belong to waiter `id`.
pub open spec fn of_waiter<W>(id: u64) -> spec_fn((u64, W)) -> bool {
    |p: (u64, W)| p.0 == id
}

/// The wakes that draining `ws` gives waiter `id`.
pub open spec fn wakes_for<W>(ws: Seq<(u64, Option<W>)>, id: u64) -> Seq<(u64, W)> {
    pending_wakes(ws).filter(of_waiter(id))
}

/// A drain wakes no waiter that is not registered.
pub proof fn lemma_unregistered_not_woken<W>(ws: Seq<(u64, Option<W>)>, id: u64)
    requires
        !is_registered(ws, id),
    ensures
        wakes_for(ws, id) == Seq::<(u64, W)>::empty(),
    decreases ws.len(),
{
    reveal(Seq::filter);
    if ws.len() > 0 {
        let rest = ws.drop_last();
        assert forall|i: int| 0 <= i < rest.len() implies (#[trigger] rest[i]).0 != id by {
            assert(rest[i] == ws[i]);
        }
        lemma_unregistered_not_woken(rest, id);
        assert(ws.last() == ws[ws.len() - 1]);
        match ws.last().1 {
            Some(w) => {
                pending_wakes(rest).lemma_filter_prepend((ws.last().0, w), of_waiter(id));
                assert(Seq::<(u64, W)>::empty() + Seq::<(u64, W)>::empty() =~= Seq::<
                    (u64, W),
                >::empty());
            },
            None => {},
        }
    }
}

/// In a registry without duplicates, a drain hands out the callback stored
/// for a waiter exactly once.
pub proof fn lemma_registered_woken_once<W>(ws: Seq<(u64, Option<W>)>, i: int, w: W)
    requires
        ids_distinct(ws),
        0 <= i < ws.len(),
        ws[i].1 == Some(w),
    ensures
        wakes_for(ws, ws[i].0) == seq![(ws[i].0, w)],
    decreases ws.len(),
{
    let id = ws[i].0;
    let rest = ws.drop_last();
    assert(ws.last() == ws[ws.len() - 1]);
    if i == ws.len() - 1 {
        assert forall|k: int| 0 <= k < rest.len() implies (#[trigger] rest[k]).0 != id by {
            assert(rest[k] == ws[k]);
            assert(ws[k].0 != ws[i].0);
        }
        lemma_unregistered_not_woken(rest, id);
        pending_wakes(rest).lemma_filter_prepend((id, w), of_waiter(id));
        assert(seq![(id, w)] + Seq::<(u64, W)>::empty() =~= seq![(id, w)]);
    } else {
        assert(rest[i] == ws[i]);
        assert forall|a: int, b: int| 0 <= a < b < rest.len() implies (#[trigger] rest[a]).0 != (
        #[trigger] rest[b]).0 by {
            assert(rest[a] == ws[a] && rest[b] == ws[b]);
        }
        lemma_registered_woken_once(rest, i, w);
        assert(ws.last().0 != id);
        match ws.last().1 {
            Some(v) => {
                pending_wakes(rest).lemma_filter_prepend((ws.last().0, v), of_waiter(id));
                assert(Seq::<(u64, W)>::empty() + seq![(id, w)] =~= seq![(id, w)]);
            },
            None => {},
        }
    }
}

/// A waiter removed from a registry is no longer in it.
pub proof fn lemma_without_not_registered<W>(ws: Seq<(u64, Option<W>)>, id: u64)
    ensures
        !is_registered(without(ws, id), id),
{
    broadcast use Seq::lemma_filter_pred;

    let out = without(ws, id);
    assert forall|i: int| 0 <= i < out.len() implies (#[trigger] out[i]).0 != id by {
        assert(other_than::<W>(id)(ws.filter(other_than(id))[i]));
    }
}

/// Cancelling twice is cancelling once: the second call changes nothing and
/// wakes nobody.
pub proof fn lemma_cancel_idempotent<W>(
    s0: CancellationState<W>,
    s1: CancellationState<W>,
    s2: CancellationState<W>,
    woken1: Seq<W>,
    woken2: Seq<W>,
)
    requires
        cancel_spec(s0, s1, woken1),
        cancel_spec(s1, s2, woken2),
    ensures
        s2.flag(),
        s2.waiters() == s1.waiters(),
        s2.next_id() == s1.next_id(),
        woken2 == Seq::<W>::empty(),
{
    reveal_with_fuel(pending_wakes, 1);
    assert(pending_wakes(s1.waiters()) == Seq::<(u64, W)>::empty());
    assert(woken2 =~= Seq::<W>::empty());
}

/// One operation of the library took the state from `pre` to `post`.
pub open spec fn step<W>(pre: CancellationState<W>, post: CancellationState<W>) -> bool {
    ||| exists|woken: Seq<W>| cancel_spec(pre, post, woken)
    ||| exists|f: CancellationTokenFuture| new_spec(pre, post, f)
    ||| exists|f0: CancellationTokenFuture, f1: CancellationTokenFuture, w: W, r: Poll|
        poll_spec(f0, f1, pre, post, w, r)
    ||| exists|f: CancellationTokenFuture| release_spec(f, pre, post)
}

/// Once cancelled, a state stays cancelled through any run of operations.
pub proof fn lemma_cancellation_permanent<W>(run: Seq<CancellationState<W>>)
    requires
        run.len() > 0,
        run[0].flag(),
        forall|k: int| 0 <= k < run.len() - 1 ==> step(#[trigger] run[k], run[k + 1]),
    ensures
        forall|k: int| 0 <= k < run.len() ==> (#[trigger] run[k]).flag(),
    decreases run.len(),
{
    if run.len() > 1 {
        let front = run.drop_last();
        assert forall|k: int| 0 <= k < front.len() - 1 implies step(
            #[trigger] front[k],
            front[k + 1],
        ) by {
            assert(front[k] == run[k] && front[k + 1] == run[k + 1]);
            assert(step(run[k], run[k + 1]));
        }
        lemma_cancellation_permanent(front);
        let n = run.len() - 1;
        assert(front[n - 1] == run[n - 1]);
        assert(step(run[n - 1], run[n]));
        assert forall|k: int| 0 <= k < run.len() implies (#[trigger] run[k]).flag() by {
            if k < n {
                assert(front[k] == run[k]);
            }
        }
    }
}

/// A computation resumed after cancellation completes on that very poll.
pub proof fn lemma_poll_after_cancel_completes<W>(
    s0: CancellationState<W>,
    s1: CancellationState<W>,
    woken: Seq<W>,
    f0: CancellationTokenFuture,
    f1: CancellationTokenFuture,
    s2: CancellationState<W>,
    w: W,
    r: Poll,
)
    requires
        cancel_spec(s0, s1, woken),
        poll_spec(f0, f1, s1, s2, w, r),
    ensures
        r == Poll::Ready,
        f1.finished(),
{
}

/// A computation that was created and polled once while pending has the
/// callback of that poll handed out exactly once by the next `cancel`.
pub proof fn lemma_woken_once<W>(
    s0: CancellationState<W>,
    s1: CancellationState<W>,
    f0: CancellationTokenFuture,
    f1: CancellationTokenFuture,
    s2: CancellationState<W>,
    w: W,
    s3: CancellationState<W>,
    woken: Seq<W>,
)
    requires
        s0.wf(),
        new_spec(s0, s1, f0),
        poll_spec(f0, f1, s1, s2, w, Poll::Pending),
        cancel_spec(s2, s3, woken),
    ensures
        wakes_for(s2.waiters(), f0.id()) == seq![(f0.id(), w)],
{
    let i = s0.waiters().len() as int;
    let ws = s2.waiters();
    assert(s1.waiters()[i] == (f0.id(), None::<W>));
    assert(ws[i] == (f0.id(), Some(w)));
    lemma_registered_woken_once(ws, i, w);
}

/// After a `cancel`, however many times a computation is polled, it is never
/// registered again, so no later drain hands out a callback of it; and every
/// one of those polls reports completion.
pub proof fn lemma_not_woken_again<W>(
    s0: CancellationState<W>,
    woken: Seq<W>,
    states: Seq<CancellationState<W>>,
    futures: Seq<CancellationTokenFuture>,
    wakers: Seq<W>,
    results: Seq<Poll>,
)
    requires
        states.len() > 0,
        futures.len() == states.len(),
        wakers.len() == states.len() - 1,
        results.len() == states.len() - 1,
        cancel_spec(s0, states[0], woken),
        forall|k: int|
            0 <= k < states.len() - 1 ==> poll_spec(
                #[trigger] futures[k],
                futures[k + 1],
                states[k],
                states[k + 1],
                wakers[k],
                results[k],
            ),
    ensures
        forall|k: int|
            0 <= k < states.len() ==> !is_registered(#[trigger] states[k].waiters(), futures[0].id())
                && wakes_for(states[k].waiters(), futures[0].id()) == Seq::<(u64, W)>::empty(),
        forall|k: int| 0 <= k < results.len() ==> #[trigger] results[k] == Poll::Ready,
        forall|k: int|
            0 <= k < states.len() ==> (#[trigger] futures[k]).id() == futures[0].id()
                && states[k].flag(),
    decreases states.len(),
{
    let id = futures[0].id();
    if states.len() == 1 {
        lemma_unregistered_not_woken(states[0].waiters(), id);
    } else {
        let n = states.len() - 1;
        lemma_not_woken_again(
            s0,
            woken,
            states.drop_last(),
            futures.drop_last(),
            wakers.drop_last(),
            results.drop_last(),
        );
        assert(states.drop_last()[n - 1] == states[n - 1]);
        assert(futures.drop_last()[0] == futures[0]);
        assert forall|k: int| 0 <= k < n implies (#[trigger] futures[k]).id() == id
            && states[k].flag() by {
            assert(futures.drop_last()[k] == futures[k]);
            assert(states.drop_last()[k] == states[k]);
        }
        assert(poll_spec(futures[n - 1], futures[n], states[n - 1], states[n], wakers[n - 1], results[n - 1]));
        lemma_unregistered_not_woken(states[n].waiters(), id);
        assert forall|k: int| 0 <= k < states.len() implies !is_registered(
            #[trigger] states[k].waiters(),
            id,
        ) && wakes_for(states[k].waiters(), id) == Seq::<(u64, W)>::empty() by {
            if k < n {
                assert(states.drop_last()[k] == states[k]);
            }
        }
        assert forall|k: int| 0 <= k < results.len() implies #[trigger] results[k] == Poll::Ready by {
            if k < n - 1 {
                assert(results.drop_last()[k] == results[k]);
            }
        }
        assert forall|k: int| 0 <= k < states.len() implies (#[trigger] futures[k]).id() == id
            && states[k].flag() by {
            if k < n {
                assert(futures.drop_last()[k] == futures[k]);
                assert(states.drop_last()[k] == states[k]);
            }
        }
    }
}

/// A computation that reported completion has left the registry.
pub proof fn lemma_completed_not_registered<W>(
    f0: CancellationTokenFuture,
    f1: CancellationTokenFuture,
    s0: CancellationState<W>,
    s1: CancellationState<W>,
    w: W,
)
    requires
        poll_spec(f0, f1, s0, s1, w, Poll::Ready),
    ensures
        !is_registered(s1.waiters(), f0.id()),
{
    lemma_without_not_registered(s0.waiters(), f0.id());
}

/// A computation given up before completion has left the registry.
pub proof fn lemma_released_not_registered<W>(
    f: CancellationTokenFuture,
    s0: CancellationState<W>,
    s1: CancellationState<W>,
)
    requires
        release_spec(f, s0, s1),
    ensures
        !is_registered(s1.waiters(), f.id()),
{
    lemma_without_not_registered(s0.waiters(), f.id());
}

} // verus!
