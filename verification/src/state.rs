//! The record that a pool protects, and its transitions.

use crate::model::PoolModel;
use std::collections::VecDeque;
use std::task::Waker;
use vstd::prelude::*;

verus! {

/// How one poll of a suspending acquisition ended.
pub enum Polled<G> {
    /// The acquisition is complete and owns this.
    Ready(G),
    /// Nothing was free: the caller is to poll again once it is woken.
    Pending,
}

impl<G> Polled<G> {
    /// What the poll gave, if anything.
    pub open spec fn given(self) -> Option<G> {
        match self {
            Polled::Ready(g) => Some(g),
            Polled::Pending => None,
        }
    }
}

/// The free instances of a pool and the wakers of the acquisitions that wait
/// for one.
pub struct PoolInner<T: 'static + Default + Send> {
    objects: Vec<T>,
    pending: VecDeque<Waker>,
}

impl<T: 'static + Default + Send> View for PoolInner<T> {
    type V = PoolModel<T>;

    closed spec fn view(&self) -> PoolModel<T> {
        PoolModel { free: self.objects@, waiters: self.pending@ }
    }
}

impl<T: 'static + Default + Send> PoolInner<T> {
    /// A record of `size` free instances, each of them built by a call of
    /// `constructor`, and no waker.
    pub fn new(size: usize, mut constructor: impl FnMut() -> T) -> (state: Self)
        requires
            size > 0 ==> constructor.requires(()),
        ensures
            state@.free.len() == size,
            forall|i: int| 0 <= i < size ==> constructor.ensures((), #[trigger] state@.free[i]),
            state@.waiters == Seq::<Waker>::empty(),
    {
        let ghost make = constructor;
        let mut objects: Vec<T> = Vec::new();
        let mut built: usize = 0;
        while built < size
            invariant
                built <= size,
                objects@.len() == built,
                constructor == make,
                size > 0 ==> make.requires(()),
                forall|i: int| 0 <= i < built ==> make.ensures((), #[trigger] objects@[i]),
            decreases size - built,
        {
            let object = constructor();
            objects.push(object);
            built = built + 1;
        }
        PoolInner { objects, pending: VecDeque::new() }
    }

    /// The number of free instances.
    pub fn available(&self) -> (count: usize)
        ensures
            count == self@.free.len(),
    {
        self.objects.len()
    }

    /// The number of wakers in the queue.
    pub fn waiting(&self) -> (count: usize)
        ensures
            count == self@.waiters.len(),
    {
        self.pending.len()
    }

    /// The non-suspending acquisition: takes the instance on top of the
    /// stack, or nothing from an exhausted pool. No waker is touched.
    pub fn try_take(&mut self) -> (taken: Option<T>)
        ensures
            taken == old(self)@.top(),
            final(self)@ == old(self)@.popped(),
    {
        self.objects.pop()
    }

    /// The fallback acquisition: takes the instance on top of the stack, or
    /// hands `value` back from an exhausted pool, which it leaves as it was.
    pub fn take_or(&mut self, value: T) -> (content: T)
        ensures
            content == old(self)@.served_or(value),
            final(self)@ == old(self)@.popped(),
    {
        match self.objects.pop() {
            Some(object) => object,
            None => value,
        }
    }

    /// One poll of a suspending acquisition: takes the instance on top of the
    /// stack, or, from an exhausted pool, queues a duplicate of `waker` behind
    /// the wakers that wait already and reports that nothing is ready.
    pub fn poll_take(&mut self, waker: &Waker) -> (polled: Polled<T>)
        ensures
            polled.given() == old(self)@.top(),
            final(self)@ == old(self)@.polled(*waker),
    {
        match self.objects.pop() {
            Some(object) => Polled::Ready(object),
            None => {
                self.pending.push_back(waker.clone());
                Polled::Pending
            },
        }
    }

    /// The bookkeeping of a release: puts `object` on top of the stack and
    /// takes the oldest waker out of the queue. The waker returned is the one
    /// to wake; it has not been woken yet.
    pub fn release(&mut self, object: T) -> (oldest: Option<Waker>)
        ensures
            oldest == old(self)@.oldest(),
            final(self)@ == old(self)@.released(object),
    {
        self.objects.push(object);
        self.pending.pop_front()
    }

    /// The release of a guard's instance: [`PoolInner::release`], and then the
    /// wake of the waker that it returned.
    pub fn give_back(&mut self, object: T)
        ensures
            final(self)@ == old(self)@.released(object),
    {
        match self.release(object) {
            Some(waker) => waker.wake(),
            None => {},
        }
    }
}

} // verus!
