use std::cell::Cell;
use std::rc::Rc;

use cancellation_token::{CancellationState, CancellationTokenFuture, FutureWaiter, Poll};

/// A resumption callback that counts how often it was invoked.
struct CountingWaker {
    count: Rc<Cell<usize>>,
}

impl CountingWaker {
    fn wake(self) {
        self.count.set(self.count.get() + 1);
    }
}

fn counting_waker() -> (impl Fn() -> CountingWaker, Rc<Cell<usize>>) {
    let count = Rc::new(Cell::new(0));
    let shared = count.clone();
    (move || CountingWaker { count: shared.clone() }, count)
}

fn wake_all(wakers: Vec<CountingWaker>) {
    for waker in wakers {
        waker.wake();
    }
}

#[test]
fn flag_reports_cancellation() {
    let mut flag = CancellationState::<()>::new();
    assert!(!flag.is_cancelled());

    flag.cancel();
    assert!(flag.is_cancelled());
}

#[test]
fn state_reports_cancellation_even_if_cancelled_twice() {
    let mut state = CancellationState::<()>::new();
    assert!(!state.is_cancelled());

    state.cancel();
    state.cancel();

    assert!(state.is_cancelled());
}

#[test]
fn future_is_ready_after_token_cancellation() {
    let mut state = CancellationState::<()>::new();
    let mut future = CancellationTokenFuture::new(&mut state);

    let poll_result = future.poll(&mut state, ());
    assert!(matches!(poll_result, Poll::Pending));

    state.cancel();

    for _ in 0..10 {
        let poll_result = future.poll(&mut state, ());
        assert!(matches!(poll_result, Poll::Ready));
    }
}

#[test]
fn future_wakes_precisely_once() {
    let mut state = CancellationState::new();
    let mut future = CancellationTokenFuture::new(&mut state);

    let (waker, wake_counter) = counting_waker();

    assert_eq!(wake_counter.get(), 0);

    let poll_result = future.poll(&mut state, waker());
    assert!(matches!(poll_result, Poll::Pending));
    assert_eq!(wake_counter.get(), 0);

    wake_all(state.cancel());

    let poll_result = future.poll(&mut state, waker());
    assert!(matches!(poll_result, Poll::Ready));
    assert_eq!(wake_counter.get(), 1);

    for _ in 0..10 {
        let poll_result = future.poll(&mut state, waker());
        assert!(matches!(poll_result, Poll::Ready));
    }

    assert_eq!(wake_counter.get(), 1);
}

#[test]
fn future_does_not_leave_async_waiter_behind_in_token_state_on_completion() {
    let mut state = CancellationState::<()>::new();
    assert_eq!(state.waiter_count(), 0);

    let mut future = CancellationTokenFuture::new(&mut state);

    let poll_result = future.poll(&mut state, ());
    assert!(matches!(poll_result, Poll::Pending));

    assert_eq!(state.waiter_count(), 1);

    state.cancel();

    let poll_result = future.poll(&mut state, ());
    assert!(matches!(poll_result, Poll::Ready));

    assert_eq!(state.waiter_count(), 0);
}

#[test]
fn future_does_not_leave_async_waiter_behind_in_token_state_on_drop() {
    let mut state = CancellationState::<()>::new();
    assert_eq!(state.waiter_count(), 0);

    let mut future = CancellationTokenFuture::new(&mut state);

    let poll_result = future.poll(&mut state, ());
    assert!(matches!(poll_result, Poll::Pending));

    assert_eq!(state.waiter_count(), 1);

    future.release(&mut state);

    assert_eq!(state.waiter_count(), 0);
}

#[test]
fn cancelling_twice_changes_nothing_more() {
    let mut state = CancellationState::new();
    let mut future = CancellationTokenFuture::new(&mut state);
    let (waker, wake_counter) = counting_waker();
    assert!(matches!(future.poll(&mut state, waker()), Poll::Pending));

    let first = state.cancel();
    assert_eq!(first.len(), 1);
    wake_all(first);
    let second = state.cancel();
    assert_eq!(second.len(), 0);
    wake_all(second);

    assert!(state.is_cancelled());
    assert_eq!(state.waiter_count(), 0);
    assert_eq!(wake_counter.get(), 1);
}

#[test]
fn cancellation_stays_visible_through_later_operations() {
    let mut state = CancellationState::<()>::new();
    state.cancel();
    let mut future = CancellationTokenFuture::new(&mut state);
    assert!(state.is_cancelled());
    assert!(matches!(future.poll(&mut state, ()), Poll::Ready));
    assert!(state.is_cancelled());
    future.release(&mut state);
    assert!(state.is_cancelled());
    let other = CancellationTokenFuture::new(&mut state);
    assert_eq!(other.release(&mut state), ());
    assert!(state.is_cancelled());
}

#[test]
fn poll_then_cancel_wakes_once_and_completes() {
    let mut state = CancellationState::new();
    let mut future = CancellationTokenFuture::new(&mut state);
    let (waker, wake_counter) = counting_waker();

    assert!(matches!(future.poll(&mut state, waker()), Poll::Pending));
    assert_eq!(wake_counter.get(), 0);

    wake_all(state.cancel());
    assert_eq!(wake_counter.get(), 1);

    assert!(matches!(future.poll(&mut state, waker()), Poll::Ready));
    assert_eq!(wake_counter.get(), 1);
    assert!(future.is_terminated());
}

#[test]
fn independent_states_do_not_share_cancellation() {
    let mut first = CancellationState::<()>::new();
    let second = CancellationState::<()>::new();
    first.cancel();
    assert!(first.is_cancelled());
    assert!(!second.is_cancelled());
}

#[test]
fn three_computations_complete_after_one_cancel() {
    let mut state = CancellationState::<()>::new();
    let mut a = CancellationTokenFuture::new(&mut state);
    let mut b = CancellationTokenFuture::new(&mut state);
    let mut c = CancellationTokenFuture::new(&mut state);
    assert_eq!(state.waiter_count(), 3);

    state.cancel();

    assert!(matches!(a.poll(&mut state, ()), Poll::Ready));
    assert!(matches!(b.poll(&mut state, ()), Poll::Ready));
    assert!(matches!(c.poll(&mut state, ()), Poll::Ready));
    assert_eq!(state.waiter_count(), 0);
}

#[test]
fn unpolled_computation_needs_no_wake() {
    let mut state = CancellationState::<()>::new();
    let mut future = CancellationTokenFuture::new(&mut state);
    let woken = state.cancel();
    assert_eq!(woken.len(), 0);
    assert!(matches!(future.poll(&mut state, ()), Poll::Ready));
}

#[test]
fn computation_created_after_cancel_completes_and_leaves_registry() {
    let mut state = CancellationState::<()>::new();
    state.cancel();
    let mut future = CancellationTokenFuture::new(&mut state);
    assert_eq!(state.waiter_count(), 1);
    assert!(!future.is_terminated());
    assert!(matches!(future.poll(&mut state, ()), Poll::Ready));
    assert!(future.is_terminated());
    assert_eq!(state.waiter_count(), 0);
}

#[test]
fn release_after_drain_is_harmless() {
    let mut state = CancellationState::<()>::new();
    let keep = CancellationTokenFuture::new(&mut state);
    let gone = CancellationTokenFuture::new(&mut state);
    gone.release(&mut state);
    assert_eq!(state.waiter_count(), 1);
    state.cancel();
    keep.release(&mut state);
    assert_eq!(state.waiter_count(), 0);
}

#[test]
fn pending_poll_keeps_only_the_latest_callback() {
    let mut state = CancellationState::new();
    let mut future = CancellationTokenFuture::new(&mut state);
    assert!(matches!(future.poll(&mut state, 1u32), Poll::Pending));
    assert!(matches!(future.poll(&mut state, 2u32), Poll::Pending));
    assert!(!future.is_terminated());
    assert_eq!(state.cancel(), vec![2u32]);
}

#[test]
fn try_remove_waiter_reports_absence() {
    let mut state = CancellationState::<()>::new();
    let _future = CancellationTokenFuture::new(&mut state);
    assert_eq!(state.try_remove_waiter(0), Ok(()));
    assert_eq!(state.try_remove_waiter(0), Err(()));
    assert_eq!(state.waiter_count(), 0);
}

#[test]
fn cancel_wakes_every_polled_computation() {
    let mut state = CancellationState::new();
    let mut a = CancellationTokenFuture::new(&mut state);
    let mut b = CancellationTokenFuture::new(&mut state);
    let _unpolled = CancellationTokenFuture::new(&mut state);
    assert!(matches!(a.poll(&mut state, 10u32), Poll::Pending));
    assert!(matches!(b.poll(&mut state, 20u32), Poll::Pending));
    let mut woken = state.cancel();
    woken.sort();
    assert_eq!(woken, vec![10u32, 20u32]);
}

#[test]
fn waiter_cell_set_and_take() {
    let mut cell = FutureWaiter::new_empty();
    assert_eq!(cell.take_waker(), None);
    cell.set_waker(1u8);
    cell.set_waker(2u8);
    assert_eq!(cell.take_waker(), Some(2u8));
    assert_eq!(cell.take_waker(), None);
}

#[test]
fn registration_room_is_reported() {
    let state = CancellationState::<()>::new();
    assert!(state.has_room_for_waiter());
}
