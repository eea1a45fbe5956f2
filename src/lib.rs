//! A one-way, broadcastable cancellation signal and the computation that
//! waits for it.
//!
//! The state is modelled sequentially: whoever shares it across threads holds
//! it behind a lock, and invokes the resumption callbacks that `cancel` hands
//! back only once that lock is released.

pub mod archive;
pub mod cli;
pub mod configuration;
pub mod future;
pub mod lastfm;
pub mod laws;
pub mod state;
pub mod waiter;

pub use future::{CancellationTokenFuture, CancellationTokenTimeoutFuture, Poll};
pub use state::CancellationState;
pub use waiter::FutureWaiter;
