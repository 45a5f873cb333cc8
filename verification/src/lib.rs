//! Decision and execution core of an algorithmic trading engine: a bounded
//! price history, pluggable strategies, a risk manager with its position
//! ledger, the book of pending orders, and the start/stop state machine that
//! ties them together.
//!
//! Every real-valued quantity is an integer count of millionths, and every
//! decision is made on those integers exactly. Everything here is
//! synchronous; what a call returns is fixed by its arguments, but for the
//! simulated market feed, the clock and the random order ids. Scheduling,
//! waiting and the order gateway belong to the caller, who hands the
//! gateway's answers in.

pub mod arith;
pub mod bot;
pub mod clock;
pub mod executor;
pub mod feed;
pub mod history;
pub mod lookup;
pub mod risk;
pub mod strategy;
pub mod types;
pub mod wide;
