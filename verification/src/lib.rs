//! A small cross-thread coordination layer: background work can request
//! execution on a single designated "main" thread, either fire-and-forget or
//! blocking until a result is ready, and many concurrent operations can race
//! against each other with the first success winning.
//!
//! The library holds the coordination state and decisions: which thread is the
//! main thread, what a post does from each side, what a pump drains and in
//! which order, and how racing outcomes aggregate. The surrounding runtime
//! (threads, locks, channels, the task scheduler) drives these decisions.

use vstd::prelude::*;

pub mod dispatch;
pub mod main_thread;
pub mod parallel;

verus! {

pub use crate::dispatch::Dispatcher;
pub use crate::dispatch::MainCall;
pub use crate::dispatch::PumpBatch;
pub use crate::dispatch::ResultSlot;
pub use crate::dispatch::Signalled;
pub use crate::main_thread::MainThreadId;
pub use crate::parallel::first_ok;
pub use crate::parallel::RaceState;

} // verus!
