//! A pool of reusable objects shared between asynchronous tasks.
//!
//! The record that the pool's lock protects is a small state machine: a stack
//! of free instances and a queue of wakers of suspended acquisitions. Its
//! transitions are specified over a mathematical model and verified; the
//! handle that shares the record behind a `tokio` mutex is built on top of
//! them.
//!
//! - [`model`]: the pool as a mathematical value, and its transitions.
//! - [`state`]: the record itself, each method specified by a transition.
//! - [`pool`]: the shared handle, its guards and its suspending acquisitions.
//! - [`laws`], [`ledger`]: what holds of every pool, and of every pool
//!   together with the guards that are out.
//! - [`lock`], [`wake`]: what is assumed of `tokio` and of the standard
//!   library.
//!
//! The library never waits and never spawns. An acquisition is polled by its
//! caller, and a guard is released by whoever runs
//! [`PoolInner::give_back`] under the pool's lock: in an asynchronous program
//! that is a task of its own, spawned when the guard goes out of scope.

pub mod laws;
pub mod ledger;
pub mod lock;
pub mod model;
pub mod pool;
pub mod state;
pub mod wake;

pub use pool::{Pool, PoolFuture, PoolGuard};
pub use state::{PoolInner, Polled};
