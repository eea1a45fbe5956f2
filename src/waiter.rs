use vstd::prelude::*;

verus! {

/// A resumption cell: holds at most one pending resumption callback of one
/// suspended computation.
pub struct FutureWaiter<W> {
    waker: Option<W>,
}

impl<W> View for FutureWaiter<W> {
    type V = Option<W>;

    closed spec fn view(&self) -> Option<W> {
        self.waker
    }
}

impl<W> FutureWaiter<W> {
    /// An empty cell.
    pub fn new_empty() -> (r: Self)
        ensures
            r@ is None,
    {
        FutureWaiter { waker: None }
    }

    /// Stores `waker`, silently discarding (never invoking) any callback held
    /// before.
    pub fn set_waker(&mut self, waker: W)
        ensures
            final(self)@ == Some(waker),
    {
        self.waker = Some(waker);
    }

    /// Takes the stored callback out, leaving the cell empty.
    pub fn take_waker(&mut self) -> (r: Option<W>)
        ensures
            r == old(self)@,
            final(self)@ is None,
    {
        let r = self.waker.take();
        r
    }
}

} // verus!
