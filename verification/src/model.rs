//! The mathematical model of the record that a pool protects.
//!
//! A pool is a stack of free instances and a queue of wakers. Every
//! executable transition of [`crate::state::PoolInner`] is specified as one
//! of the functions below, so what is proved of these functions holds of the
//! running pool.

use std::task::Waker;
use vstd::prelude::*;

verus! {

/// What a pool holds at one instant.
pub struct PoolModel<T> {
    /// The free instances, as a stack: the last one is served first.
    pub free: Seq<T>,
    /// The wakers of suspended acquisitions, oldest first.
    pub waiters: Seq<Waker>,
}

impl<T> PoolModel<T> {
    /// The pool right after construction from `objects`.
    pub open spec fn fresh(objects: Seq<T>) -> Self {
        PoolModel { free: objects, waiters: Seq::empty() }
    }

    /// The instance that the next acquisition is served: the one returned
    /// last, or nothing when the pool is exhausted.
    pub open spec fn top(self) -> Option<T> {
        if self.free.len() > 0 {
            Some(self.free.last())
        } else {
            None
        }
    }

    /// The pool after a non-suspending acquisition: one instance fewer, or
    /// the same pool when it was exhausted.
    pub open spec fn popped(self) -> Self {
        if self.free.len() > 0 {
            PoolModel { free: self.free.drop_last(), waiters: self.waiters }
        } else {
            self
        }
    }

    /// The instance that a fallback acquisition owns: the one on top of the
    /// stack, or `value` when the pool is exhausted.
    pub open spec fn served_or(self, value: T) -> T {
        match self.top() {
            Some(object) => object,
            None => value,
        }
    }

    /// The pool after one poll of a suspending acquisition whose waker is
    /// `waker`: it gives an instance if it has one, and otherwise puts the
    /// waker at the end of the queue.
    pub open spec fn polled(self, waker: Waker) -> Self {
        if self.free.len() > 0 {
            self.popped()
        } else {
            PoolModel { free: self.free, waiters: self.waiters.push(waker) }
        }
    }

    /// The waker that the next release wakes: the oldest one, if any waits.
    pub open spec fn oldest(self) -> Option<Waker> {
        if self.waiters.len() > 0 {
            Some(self.waiters.first())
        } else {
            None
        }
    }

    /// The pool after `object` was handed back: the instance lies on top of
    /// the stack and the oldest waker has left the queue.
    pub open spec fn released(self, object: T) -> Self {
        PoolModel {
            free: self.free.push(object),
            waiters: if self.waiters.len() > 0 {
                self.waiters.drop_first()
            } else {
                self.waiters
            },
        }
    }

    /// The pool after `count` non-suspending acquisitions in a row.
    pub open spec fn popped_times(self, count: nat) -> Self
        decreases count,
    {
        if count == 0 {
            self
        } else {
            self.popped().popped_times((count - 1) as nat)
        }
    }
}

} // verus!
