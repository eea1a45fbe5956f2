use vstd::prelude::*;

use crate::state::{
    is_registered, lemma_with_waker_unregistered, lemma_without_unregistered, lemma_without_after_set, with_waker, without,
    CancellationState,
};

verus! {

/// The outcome of one poll of a computation.
#[derive(Clone, Copy, Debug, PartialEq, Eq, Structural)]
pub enum Poll {
    /// The computation has completed: cancellation was observed.
    Ready,
    /// Still suspended; the stored callback asks for another poll.
    Pending,
}

/// `f` is a computation that `new` bound to a fresh cell, registered in
/// `pre` to give `post`.
pub open spec fn new_spec<W>(
    pre: CancellationState<W>,
    post: CancellationState<W>,
    f: CancellationTokenFuture,
) -> bool {
    &&& post.wf()
    &&& f.id() == pre.next_id()
    &&& !f.triggered()
    &&& !f.finished()
    &&& post.waiters() == pre.waiters().push((f.id(), None::<W>))
    &&& post.next_id() == pre.next_id() + 1
    &&& post.flag() == pre.flag()
}

/// One resume cycle took the computation from `f0` to `f1` and the state from
/// `s0` to `s1`, with `waker` supplied, and reported `r`. The callback goes
/// into the bound cell; cancellation is observed once, for good; completion
/// takes the cell out of the registry.
pub open spec fn poll_spec<W>(
    f0: CancellationTokenFuture,
    f1: CancellationTokenFuture,
    s0: CancellationState<W>,
    s1: CancellationState<W>,
    waker: W,
    r: Poll,
) -> bool {
    &&& s1.wf()
    &&& f1.id() == f0.id()
    &&& f1.triggered() == (f0.triggered() || s0.flag())
    &&& f1.finished() == (f0.finished() || f1.triggered())
    &&& r == (if f1.triggered() {
        Poll::Ready
    } else {
        Poll::Pending
    })
    &&& r == Poll::Pending ==> s1.waiters() == with_waker(s0.waiters(), f0.id(), waker)
    &&& r == Poll::Ready ==> s1.waiters() == without(s0.waiters(), f0.id())
    &&& !is_registered(s0.waiters(), f0.id()) ==> s1.waiters() == s0.waiters()
    &&& s1.flag() == s0.flag()
    &&& s1.next_id() == s0.next_id()
}

/// Releasing computation `f` took the state from `pre` to `post`: its cell
/// is gone from the registry, nothing else changed.
pub open spec fn release_spec<W>(
    f: CancellationTokenFuture,
    pre: CancellationState<W>,
    post: CancellationState<W>,
) -> bool {
    &&& post.wf()
    &&& post.waiters() == without(pre.waiters(), f.id())
    &&& post.flag() == pre.flag()
    &&& post.next_id() == pre.next_id()
}

/// A computation that completes once its state is cancelled. It is bound to
/// one registered resumption cell, which it deregisters when it completes or
/// is released.
pub struct CancellationTokenFuture {
    waiter_id: u64,
    has_been_triggered: bool,
    has_finished: bool,
}

impl CancellationTokenFuture {
    /// The identity of the cell this computation is bound to.
    pub closed spec fn id(&self) -> u64 {
        self.waiter_id
    }

    /// Whether this computation has observed cancellation.
    pub closed spec fn triggered(&self) -> bool {
        self.has_been_triggered
    }

    /// Whether this computation has reported completion.
    pub closed spec fn finished(&self) -> bool {
        self.has_finished
    }

    /// A computation bound to a fresh cell, registered in `state`.
    pub fn new<W>(state: &mut CancellationState<W>) -> (r: Self)
        requires
            old(state).wf(),
            old(state).can_register(),
        ensures
            new_spec(*old(state), *final(state), r),
    {
        let waiter_id = state.add_waiter();
        CancellationTokenFuture { waiter_id, has_been_triggered: false, has_finished: false }
    }

    /// One resume cycle: stores `waker` in the bound cell, then reports
    /// `Ready` if cancellation has been observed now or before, and `Pending`
    /// otherwise. On completion the cell leaves the registry.
    pub fn poll<W>(&mut self, state: &mut CancellationState<W>, waker: W) -> (r: Poll)
        requires
            old(state).wf(),
        ensures
            poll_spec(*old(self), *final(self), *old(state), *final(state), waker, r),
    {
        let ghost ws = state.waiters();
        proof {
            lemma_without_after_set(ws, self.waiter_id, waker);
            if !is_registered(ws, self.waiter_id) {
                lemma_with_waker_unregistered(ws, self.waiter_id, waker);
                lemma_without_unregistered(ws, self.waiter_id);
            }
        }
        state.set_waker_of(self.waiter_id, waker);
        if !self.has_been_triggered {
            self.has_been_triggered = state.is_cancelled();
        }
        if self.has_been_triggered {
            self.has_finished = true;
            let _ = state.try_remove_waiter(self.waiter_id);
            Poll::Ready
        } else {
            Poll::Pending
        }
    }

    /// Whether this computation has already reported completion, so that a
    /// caller combining many of them can skip polling it again.
    pub fn is_terminated(&self) -> (r: bool)
        ensures
            r == self.finished(),
    {
        self.has_finished
    }

    /// Gives the computation up: its cell leaves the registry, if a `cancel`
    /// has not drained it already.
    pub fn release<W>(self, state: &mut CancellationState<W>)
        requires
            old(state).wf(),
        ensures
            release_spec(self, *old(state), *final(state)),
    {
        let _ = state.try_remove_waiter(self.waiter_id);
    }
}

/// Reserved for a wait that is also bounded by a deadline. Whether such a
/// deadline would cancel the state or only end the wait is not settled, so it
/// has no behaviour.
pub struct CancellationTokenTimeoutFuture {}

} // verus!
