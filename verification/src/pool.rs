//! The handle that shares a pool between tasks, its guards and its
//! suspending acquisitions.
//!
//! Every acquisition makes one attempt at the lock and never waits for it.
//! What the attempt gives is outside the verifier's knowledge, so each
//! acquisition comes in two parts: a function that says exactly what happens
//! for either outcome of the attempt, and the function that makes the attempt.

use crate::lock::{locked, new_mutex, share};
use crate::model::PoolModel;
use crate::state::{PoolInner, Polled};
use std::sync::Arc;
use std::task::Waker;
use tokio::sync::Mutex;
use vstd::prelude::*;

verus! {

/// A pool of reusable instances, shared behind a lock.
///
/// What the lock protects changes under every task that holds it, so no
/// function of the handle can say what the pool holds now. What it held when
/// it was made never changes, and the handle keeps that as ghost state.
#[verifier::reject_recursive_types(T)]
pub struct Pool<T: 'static + Default + Send> {
    inner: Arc<Mutex<PoolInner<T>>>,
    founded: Ghost<PoolModel<T>>,
}

/// A suspending acquisition that has not completed yet.
#[verifier::reject_recursive_types(T)]
pub struct PoolFuture<'a, T: 'static + Default + Send> {
    in_pool: &'a Pool<T>,
}

/// The exclusive owner of one borrowed instance.
///
/// A guard does not hand its instance back by itself. Whoever ends it takes it
/// apart with [`PoolGuard::into_parts`] and gives the instance to
/// [`PoolInner::give_back`] under the lock that [`Pool::shared`] returns;
/// until then the instance is neither free nor lost.
#[verifier::reject_recursive_types(T)]
pub struct PoolGuard<'a, T: 'static + Default + Send> {
    content: T,
    in_pool: &'a Pool<T>,
}

impl<T: 'static + Default + Send> Pool<T> {
    /// What `new` put behind the lock: the pool as it was before any task
    /// touched it.
    pub closed spec fn founded(&self) -> PoolModel<T> {
        self.founded@
    }

    /// A pool of `size` instances, each built by one call of `constructor`,
    /// with nobody waiting: that record is what goes behind the new lock.
    pub fn new(size: usize, constructor: impl FnMut() -> T) -> (pool: Self)
        requires
            size > 0 ==> constructor.requires(()),
        ensures
            pool.founded().free.len() == size,
            forall|i: int|
                0 <= i < size ==> constructor.ensures((), #[trigger] pool.founded().free[i]),
            pool.founded() == PoolModel::fresh(pool.founded().free),
    {
        let record = PoolInner::new(size, constructor);
        let founded = Ghost(record@);
        Pool { inner: Arc::new(new_mutex(record)), founded }
    }

    /// A suspending acquisition from this pool. It does nothing until polled.
    pub fn take(&self) -> (future: PoolFuture<'_, T>)
        ensures
            future.pool() == *self,
    {
        PoolFuture { in_pool: self }
    }

    /// The non-suspending acquisition, given `record`: the pool's record if
    /// the lock could be had, nothing if it is held elsewhere. It guards the
    /// instance on top of the stack; an exhausted pool and a held lock both
    /// give nothing, and the caller cannot tell them apart.
    pub fn try_take_from(&self, record: Option<&mut PoolInner<T>>) -> (taken: Option<
        PoolGuard<'_, T>,
    >)
        ensures
            (match record {
                Some(state) => {
                    &&& final(state)@ == state@.popped()
                    &&& match state@.top() {
                        Some(object) => taken matches Some(guard) && guard.holds(object, *self),
                        None => taken is None,
                    }
                },
                None => taken is None,
            }),
    {
        match record {
            Some(state) => match state.try_take() {
                Some(content) => Some(PoolGuard { content, in_pool: self }),
                None => None,
            },
            None => None,
        }
    }

    /// One attempt to take an instance, which neither waits nor queues a
    /// waker: [`Pool::try_take_from`] on what one attempt at the lock gives.
    pub fn try_take(&self) -> (taken: Option<PoolGuard<'_, T>>)
        ensures
            taken matches Some(guard) ==> guard.pool() == *self,
    {
        match self.inner.try_lock() {
            Ok(mut lock) => self.try_take_from(Some(locked(&mut lock))),
            Err(_) => self.try_take_from(None),
        }
    }

    /// The fallback acquisition, given `record` as in
    /// [`Pool::try_take_from`]. It guards the instance on top of the stack,
    /// and `value` when the pool is exhausted or the lock is held elsewhere.
    pub fn take_or_from(&self, record: Option<&mut PoolInner<T>>, value: T) -> (guard: PoolGuard<
        '_,
        T,
    >)
        ensures
            (match record {
                Some(state) => {
                    &&& final(state)@ == state@.popped()
                    &&& guard.holds(state@.served_or(value), *self)
                },
                None => guard.holds(value, *self),
            }),
    {
        let content = match record {
            Some(state) => state.take_or(value),
            None => value,
        };
        PoolGuard { content, in_pool: self }
    }

    /// Takes an instance if one can be had at once, and otherwise guards
    /// `value`, which enters the pool when that guard is released:
    /// [`Pool::take_or_from`] on what one attempt at the lock gives.
    pub fn take_or(&self, value: T) -> (guard: PoolGuard<'_, T>)
        ensures
            guard.pool() == *self,
    {
        match self.inner.try_lock() {
            Ok(mut lock) => self.take_or_from(Some(locked(&mut lock)), value),
            Err(_) => self.take_or_from(None, value),
        }
    }

    /// The fallback acquisition with the default value of `T` as the
    /// fallback, given `record` as in [`Pool::try_take_from`]. It guards the
    /// instance on top of the stack, and a default value when the pool is
    /// exhausted or the lock is held elsewhere.
    pub fn take_or_default_from(&self, record: Option<&mut PoolInner<T>>) -> (guard: PoolGuard<
        '_,
        T,
    >)
        ensures
            (match record {
                Some(state) => {
                    &&& final(state)@ == state@.popped()
                    &&& guard.pool() == *self
                    &&& match state@.top() {
                        Some(object) => guard@ == object,
                        None => T::default.ensures((), guard@),
                    }
                },
                None => guard.pool() == *self && T::default.ensures((), guard@),
            }),
    {
        self.take_or_from(record, T::default())
    }

    /// As [`Pool::take_or`], with the default value of `T` as the fallback:
    /// [`Pool::take_or_default_from`] on what one attempt at the lock gives.
    pub fn take_or_default(&self) -> (guard: PoolGuard<'_, T>)
        ensures
            guard.pool() == *self,
    {
        match self.inner.try_lock() {
            Ok(mut lock) => self.take_or_default_from(Some(locked(&mut lock))),
            Err(_) => self.take_or_default_from(None),
        }
    }

    /// The lock that protects the pool's record.
    pub closed spec fn lock(&self) -> Mutex<PoolInner<T>> {
        *self.inner
    }

    /// The pool's own lock with the record behind it, for the task that
    /// releases a guard.
    pub fn shared(&self) -> (inner: Arc<Mutex<PoolInner<T>>>)
        ensures
            *inner == self.lock(),
    {
        share(&self.inner)
    }
}

impl<'a, T: 'static + Default + Send> PoolFuture<'a, T> {
    /// The pool that the acquisition takes from.
    pub closed spec fn pool(&self) -> Pool<T> {
        *self.in_pool
    }

    /// One poll, given `record`: the pool's record if the lock could be had,
    /// nothing if it is held elsewhere. With the record it guards the instance
    /// on top of the stack, or queues a duplicate of `waker` when the pool is
    /// exhausted. Without it nothing is ready and no waker is queued.
    pub fn poll_from(&self, record: Option<&mut PoolInner<T>>, waker: &Waker) -> (polled: Polled<
        PoolGuard<'a, T>,
    >)
        ensures
            (match record {
                Some(state) => {
                    &&& final(state)@ == state@.polled(*waker)
                    &&& match state@.top() {
                        Some(object) => polled matches Polled::Ready(guard) && guard.holds(
                            object,
                            self.pool(),
                        ),
                        None => polled is Pending,
                    }
                },
                None => polled is Pending,
            }),
    {
        match record {
            Some(state) => match state.poll_take(waker) {
                Polled::Ready(content) => Polled::Ready(
                    PoolGuard { content, in_pool: self.in_pool },
                ),
                Polled::Pending => Polled::Pending,
            },
            None => Polled::Pending,
        }
    }

    /// One poll of the acquisition: [`PoolFuture::poll_from`] on what one
    /// attempt at the lock gives. After `Pending` the caller polls again: when
    /// `waker` is woken if it was queued, and in any case if the lock was held.
    pub fn poll(&self, waker: &Waker) -> (polled: Polled<PoolGuard<'a, T>>)
        ensures
            polled matches Polled::Ready(guard) ==> guard.pool() == self.pool(),
    {
        match self.in_pool.inner.try_lock() {
            Ok(mut lock) => self.poll_from(Some(locked(&mut lock)), waker),
            Err(_) => self.poll_from(None, waker),
        }
    }
}

impl<'a, T: 'static + Default + Send> View for PoolGuard<'a, T> {
    type V = T;

    closed spec fn view(&self) -> T {
        self.content
    }
}

impl<'a, T: 'static + Default + Send> PoolGuard<'a, T> {
    /// The pool that the instance goes back to.
    pub closed spec fn pool(&self) -> Pool<T> {
        *self.in_pool
    }

    /// That this is the guard of `content`, bound to `pool`.
    pub open spec fn holds(&self, content: T, pool: Pool<T>) -> bool {
        self@ == content && self.pool() == pool
    }

    /// The instance.
    pub fn get(&self) -> (content: &T)
        ensures
            *content == self@,
    {
        &self.content
    }

    /// The instance, to work on.
    pub fn get_mut(&mut self) -> (content: &mut T)
        ensures
            *content == old(self)@,
            final(self)@ == *final(content),
            final(self).pool() == old(self).pool(),
    {
        &mut self.content
    }

    /// Ends the guard: the instance, and the pool that is to have it back.
    pub fn into_parts(self) -> (parts: (T, &'a Pool<T>))
        ensures
            parts.0 == self@,
            *parts.1 == self.pool(),
    {
        (self.content, self.in_pool)
    }
}

} // verus!
