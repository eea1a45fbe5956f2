use vstd::prelude::*;

use crate::waiter::FutureWaiter;

verus! {

/// One registry entry: a waiter's identity and its resumption cell.
struct WaiterSlot<W> {
    id: u64,
    waiter: FutureWaiter<W>,
}

/// What registry entries stand for: each waiter's identity and the content
/// of its cell.
spec fn slots_view<W>(v: Seq<WaiterSlot<W>>) -> Seq<(u64, Option<W>)> {
    v.map_values(|s: WaiterSlot<W>| (s.id, s.waiter@))
}

/// Whether a waiter with identity `id` is in the registry `ws`.
pub open spec fn is_registered<W>(ws: Seq<(u64, Option<W>)>, id: u64) -> bool {
    exists|i: int| 0 <= i < ws.len() && (#[trigger] ws[i]).0 == id
}

/// The callbacks that draining the registry `ws` finds, paired with the
/// identity of the waiter that stored each one, the latest registration first.
/// Entries whose cell is empty belong to computations that were never polled:
/// they need no wake.
pub open spec fn pending_wakes<W>(ws: Seq<(u64, Option<W>)>) -> Seq<(u64, W)>
    decreases ws.len(),
{
    if ws.len() == 0 {
        Seq::empty()
    } else {
        let rest = pending_wakes(ws.drop_last());
        match ws.last().1 {
            Some(w) => seq![(ws.last().0, w)] + rest,
            None => rest,
        }
    }
}

/// The callbacks alone, in the order of `pending_wakes`.
pub open spec fn wakers_of<W>(p: Seq<(u64, W)>) -> Seq<W> {
    p.map_values(|e: (u64, W)| e.1)
}

/// The registry `ws` after `waker` was stored in the cell of waiter `id`; a
/// registry without that waiter is left as it is.
pub open spec fn with_waker<W>(ws: Seq<(u64, Option<W>)>, id: u64, waker: W) -> Seq<
    (u64, Option<W>),
> {
    ws.map_values(|e: (u64, Option<W>)| if e.0 == id { (id, Some(waker)) } else { e })
}

/// Holds of the registry entries that do not belong to waiter `id`.
pub open spec fn other_than<W>(id: u64) -> spec_fn((u64, Option<W>)) -> bool {
    |e: (u64, Option<W>)| e.0 != id
}

/// The registry `ws` without waiter `id`.
pub open spec fn without<W>(ws: Seq<(u64, Option<W>)>, id: u64) -> Seq<(u64, Option<W>)> {
    ws.filter(other_than(id))
}

/// No waiter appears twice in `ws`.
pub open spec fn ids_distinct<W>(ws: Seq<(u64, Option<W>)>) -> bool {
    forall|i: int, j: int| 0 <= i < j < ws.len() ==> (#[trigger] ws[i]).0 != (#[trigger] ws[j]).0
}

/// Removing a waiter that is not registered leaves the registry as it is.
pub proof fn lemma_without_unregistered<W>(ws: Seq<(u64, Option<W>)>, id: u64)
    requires
        !is_registered(ws, id),
    ensures
        without(ws, id) == ws,
    decreases ws.len(),
{
    reveal(Seq::filter);
    if ws.len() > 0 {
        assert forall|i: int| 0 <= i < ws.drop_last().len() implies (
        #[trigger] ws.drop_last()[i]).0 != id by {
            assert(ws.drop_last()[i] == ws[i]);
        }
        lemma_without_unregistered(ws.drop_last(), id);
        assert(ws.last() == ws[ws.len() - 1]);
        assert(ws.drop_last().push(ws.last()) =~= ws);
    }
}

/// In a registry without duplicates, removing the entry of waiter `id` by its
/// position is removing the waiter.
proof fn lemma_remove_is_without<W>(ws: Seq<(u64, Option<W>)>, i: int, id: u64)
    requires
        0 <= i < ws.len(),
        ws[i].0 == id,
        ids_distinct(ws),
    ensures
        ws.remove(i) == without(ws, id),
{
    let pred = other_than::<W>(id);
    let a = ws.take(i);
    let m = seq![ws[i]];
    let b = ws.skip(i + 1);
    assert(ws =~= (a + m) + b);
    assert(ws.remove(i) =~= a + b);
    assert forall|k: int| 0 <= k < a.len() implies (#[trigger] a[k]).0 != id by {
        assert(a[k] == ws[k]);
    }
    assert forall|k: int| 0 <= k < b.len() implies (#[trigger] b[k]).0 != id by {
        assert(b[k] == ws[i + 1 + k]);
    }
    lemma_without_unregistered(a, id);
    lemma_without_unregistered(b, id);
    Seq::filter_distributes_over_add(a + m, b, pred);
    Seq::filter_distributes_over_add(a, m, pred);
    reveal(Seq::filter);
    assert(m.drop_last() =~= Seq::<(u64, Option<W>)>::empty());
    assert(m.drop_last().filter(pred) =~= Seq::<(u64, Option<W>)>::empty());
    assert(!pred(m.last()));
    assert(m.filter(pred) =~= Seq::<(u64, Option<W>)>::empty());
    assert(a.filter(pred) + m.filter(pred) =~= a);
}

/// Storing a callback for a waiter that is not registered changes nothing.
pub proof fn lemma_with_waker_unregistered<W>(ws: Seq<(u64, Option<W>)>, id: u64, waker: W)
    requires
        !is_registered(ws, id),
    ensures
        with_waker(ws, id, waker) == ws,
{
    assert(with_waker(ws, id, waker) =~= ws);
}

/// Once waiter `id` is removed, what its cell held no longer shows.
pub proof fn lemma_without_after_set<W>(ws: Seq<(u64, Option<W>)>, id: u64, waker: W)
    requires
        ids_distinct(ws),
    ensures
        without(with_waker(ws, id, waker), id) == without(ws, id),
{
    if is_registered(ws, id) {
        let i = choose|i: int| 0 <= i < ws.len() && (#[trigger] ws[i]).0 == id;
        let set = with_waker(ws, id, waker);
        assert(set[i].0 == id);
        assert forall|a: int, b: int| 0 <= a < b < set.len() implies (#[trigger] set[a]).0 != (
        #[trigger] set[b]).0 by {
            assert(ws[a].0 != ws[b].0);
        }
        lemma_remove_is_without(ws, i, id);
        lemma_remove_is_without(set, i, id);
        assert forall|k: int| 0 <= k < ws.len() - 1 implies #[trigger] set.remove(i)[k]
            == ws.remove(i)[k] by {
            if k < i {
                assert(ws[k].0 != ws[i].0);
            } else {
                assert(ws[k + 1].0 != ws[i].0);
            }
        }
        assert(set.remove(i) =~= ws.remove(i));
    } else {
        lemma_with_waker_unregistered(ws, id, waker);
    }
}

/// `post` is `pre` after `cancel`, which handed back the callbacks `woken`:
/// the flag is set, the registry is empty, and each callback found in a
/// drained cell is handed back once.
pub open spec fn cancel_spec<W>(
    pre: CancellationState<W>,
    post: CancellationState<W>,
    woken: Seq<W>,
) -> bool {
    &&& post.wf()
    &&& post.flag()
    &&& post.waiters() == Seq::<(u64, Option<W>)>::empty()
    &&& post.next_id() == pre.next_id()
    &&& woken == wakers_of(pending_wakes(pre.waiters()))
}

/// The shared cancellation state: a one-way flag and the registry of the
/// resumption cells of the computations that wait for it.
pub struct CancellationState<W> {
    cancellation_flag: bool,
    async_waiters: Vec<WaiterSlot<W>>,
    next_waiter_id: u64,
}

impl<W> CancellationState<W> {
    /// Whether the flag is set.
    pub closed spec fn flag(&self) -> bool {
        self.cancellation_flag
    }

    /// The registry: for each registered waiter its identity and the content
    /// of its cell. Its order carries no meaning.
    pub closed spec fn waiters(&self) -> Seq<(u64, Option<W>)> {
        slots_view(self.async_waiters@)
    }

    /// The identity the next registered waiter gets; every identity handed out
    /// so far is below it.
    pub closed spec fn next_id(&self) -> u64 {
        self.next_waiter_id
    }

    /// A waiter appears at most once, and every registered identity was
    /// handed out already.
    pub open spec fn wf(&self) -> bool {
        &&& ids_distinct(self.waiters())
        &&& forall|i: int|
            0 <= i < self.waiters().len() ==> (#[trigger] self.waiters()[i]).0 < self.next_id()
    }

    /// Whether one more waiter can get an identity of its own.
    pub open spec fn can_register(&self) -> bool {
        self.next_id() < u64::MAX
    }

    /// A fresh state: flag unset, no waiters.
    pub fn new() -> (r: Self)
        ensures
            r.wf(),
            !r.flag(),
            r.waiters() == Seq::<(u64, Option<W>)>::empty(),
            r.next_id() == 0,
    {
        let r = CancellationState {
            cancellation_flag: false,
            async_waiters: Vec::new(),
            next_waiter_id: 0,
        };
        assert(r.waiters() =~= Seq::<(u64, Option<W>)>::empty());
        r
    }

    /// Whether the state has been cancelled.
    pub fn is_cancelled(&self) -> (r: bool)
        ensures
            r == self.flag(),
    {
        self.cancellation_flag
    }

    /// Whether one more waiter can get an identity of its own.
    pub fn has_room_for_waiter(&self) -> (r: bool)
        ensures
            r == self.can_register(),
    {
        self.next_waiter_id < u64::MAX
    }

    /// Sets the flag, for good, and empties the registry. Hands back every
    /// callback found in a drained cell, each exactly once, for the caller to
    /// invoke once it no longer holds the state; a cell that was never filled
    /// needs no wake, as its computation checks the flag on its first poll.
    pub fn cancel(&mut self) -> (r: Vec<W>)
        ensures
            cancel_spec(*old(self), *final(self), r@),
    {
        self.cancellation_flag = true;
        let mut drained: Vec<WaiterSlot<W>> = Vec::new();
        std::mem::swap(&mut self.async_waiters, &mut drained);
        let ghost all = slots_view(drained@);
        let mut woken: Vec<W> = Vec::new();
        while drained.len() > 0
            invariant
                wakers_of(pending_wakes(all)) == woken@ + wakers_of(
                    pending_wakes(slots_view(drained@)),
                ),
            decreases drained.len(),
        {
            let ghost before = slots_view(drained@);
            let ghost woken_before = woken@;
            match drained.pop() {
                Some(slot) => {
                    let mut slot = slot;
                    assert(slots_view(drained@) =~= before.drop_last());
                    let ghost rest = pending_wakes(before.drop_last());
                    match slot.waiter.take_waker() {
                        Some(w) => {
                            woken.push(w);
                            assert(pending_wakes(before) == seq![(before.last().0, w)] + rest);
                            assert(wakers_of(seq![(before.last().0, w)] + rest) =~= seq![w]
                                + wakers_of(rest));
                            assert(woken@ + wakers_of(rest) =~= woken_before + (seq![w]
                                + wakers_of(rest)));
                        },
                        None => {},
                    }
                },
                None => {},
            }
        }
        assert(slots_view(drained@) =~= Seq::<(u64, Option<W>)>::empty());
        assert(woken@ + wakers_of(pending_wakes(Seq::<(u64, Option<W>)>::empty())) =~= woken@);
        assert(self.waiters() =~= Seq::<(u64, Option<W>)>::empty());
        woken
    }

    /// Registers a fresh, empty cell and returns its waiter's identity. This
    /// is safe whether or not the flag is set: the computation checks the flag
    /// on its own.
    pub(crate) fn add_waiter(&mut self) -> (id: u64)
        requires
            old(self).wf(),
            old(self).can_register(),
        ensures
            final(self).wf(),
            id == old(self).next_id(),
            final(self).next_id() == old(self).next_id() + 1,
            final(self).waiters() == old(self).waiters().push((id, None::<W>)),
            final(self).flag() == old(self).flag(),
    {
        let id = self.next_waiter_id;
        self.async_waiters.push(WaiterSlot { id, waiter: FutureWaiter::new_empty() });
        self.next_waiter_id = id + 1;
        assert(self.waiters() =~= old(self).waiters().push((id, None::<W>)));
        id
    }

    /// Stores `waker` in the cell of waiter `id`, replacing what it held. A
    /// waiter that is no longer registered has already been drained: nothing
    /// would ever take the callback, so it is dropped.
    pub(crate) fn set_waker_of(&mut self, id: u64, waker: W)
        requires
            old(self).wf(),
        ensures
            final(self).wf(),
            final(self).waiters() == with_waker(old(self).waiters(), id, waker),
            final(self).flag() == old(self).flag(),
            final(self).next_id() == old(self).next_id(),
    {
        let ghost ws = self.waiters();
        let mut i: usize = 0;
        while i < self.async_waiters.len()
            invariant
                *self == *old(self),
                old(self).wf(),
                ws == self.waiters(),
                0 <= i <= ws.len(),
                forall|j: int| 0 <= j < i ==> (#[trigger] ws[j]).0 != id,
            decreases ws.len() - i,
        {
            if self.async_waiters[i].id == id {
                let ghost before = self.async_waiters@;
                self.async_waiters[i].waiter.set_waker(waker);
                assert(self.async_waiters@.len() == before.len());
                assert forall|j: int| 0 <= j < ws.len() implies #[trigger] self.waiters()[j]
                    == with_waker(ws, id, waker)[j] by {
                    if j != i {
                        assert(old(self).waiters()[j].0 != old(self).waiters()[i as int].0);
                        assert(self.async_waiters@[j] == before[j]);
                    }
                }
                assert(self.waiters() =~= with_waker(ws, id, waker));
                return;
            }
            i = i + 1;
        }
        assert(with_waker(ws, id, waker) =~= ws);
    }

    /// Removes waiter `id` from the registry. `Err(())` says that it was not
    /// there, which is no failure: a concurrent `cancel` drained it first.
    pub fn try_remove_waiter(&mut self, id: u64) -> (r: Result<(), ()>)
        requires
            old(self).wf(),
        ensures
            final(self).wf(),
            r is Ok <==> is_registered(old(self).waiters(), id),
            final(self).waiters() == without(old(self).waiters(), id),
            !is_registered(final(self).waiters(), id),
            final(self).flag() == old(self).flag(),
            final(self).next_id() == old(self).next_id(),
    {
        let ghost ws = self.waiters();
        let mut i: usize = 0;
        while i < self.async_waiters.len()
            invariant
                *self == *old(self),
                old(self).wf(),
                ws == self.waiters(),
                0 <= i <= ws.len(),
                forall|j: int| 0 <= j < i ==> (#[trigger] ws[j]).0 != id,
            decreases ws.len() - i,
        {
            if self.async_waiters[i].id == id {
                self.async_waiters.remove(i);
                assert(self.waiters() =~= ws.remove(i as int));
                assert forall|k: int| 0 <= k < self.waiters().len() implies (#[trigger] self.waiters()[k]).0 != id by {
                    if k < i {
                        assert(self.waiters()[k] == ws[k]);
                    } else {
                        assert(self.waiters()[k] == ws[k + 1]);
                        assert(old(self).waiters()[i as int].0 != old(self).waiters()[k + 1].0);
                    }
                }
                assert(ws[i as int].0 == id);
                assert(is_registered(ws, id));
                proof {
                    lemma_remove_is_without(ws, i as int, id);
                }
                return Ok(());
            }
            i = i + 1;
        }
        proof {
            lemma_without_unregistered(ws, id);
        }
        Err(())
    }

    /// The number of registered waiters.
    pub fn waiter_count(&self) -> (r: usize)
        ensures
            r == self.waiters().len(),
    {
        self.async_waiters.len()
    }
}

} // verus!
