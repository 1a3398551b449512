//! What holds of every pool, proved over the model.

use crate::model::PoolModel;
use std::task::Waker;
use vstd::prelude::*;

verus! {

/// After `count` acquisitions in a row the pool has lost its `count` topmost
/// instances, all of them once `count` reaches their number, and its queue is
/// untouched.
pub proof fn lemma_popped_times<T>(pool: PoolModel<T>, count: nat)
    ensures
        pool.popped_times(count).waiters == pool.waiters,
        count <= pool.free.len() ==> pool.popped_times(count).free == pool.free.take(
            pool.free.len() - count,
        ),
        count >= pool.free.len() ==> pool.popped_times(count).free.len() == 0,
    decreases count,
{
    if count > 0 {
        lemma_popped_times(pool.popped(), (count - 1) as nat);
        if 0 < pool.free.len() && count <= pool.free.len() {
            assert(pool.free.drop_last().take(pool.free.len() - count) == pool.free.take(
                pool.free.len() - count,
            ));
        }
    } else {
        assert(pool.free.take(pool.free.len() as int) == pool.free);
    }
}

/// A pool that holds `n` free instances, as one does right after its
/// construction with `n`, serves exactly `n` non-suspending acquisitions in a
/// row: each of the first `n` succeeds, the last instance first, and every
/// later one gives nothing.
pub proof fn law_serves_exactly_what_is_free<T>(pool: PoolModel<T>, earlier: nat)
    ensures
        earlier < pool.free.len() ==> pool.popped_times(earlier).top() == Some(
            pool.free[pool.free.len() - 1 - earlier],
        ),
        earlier >= pool.free.len() ==> pool.popped_times(earlier).top() is None,
{
    lemma_popped_times(pool, earlier);
}

/// An acquisition from an exhausted pool gives nothing and changes nothing.
pub proof fn law_exhausted_pool_gives_nothing<T>(pool: PoolModel<T>)
    requires
        pool.free.len() == 0,
    ensures
        pool.top() is None,
        pool.popped() == pool,
{
}

/// Round trip: when an instance is taken and then released, the pool has the
/// same free instances as before, in the same order, and so as many.
pub proof fn law_take_then_release_restores<T>(pool: PoolModel<T>)
    requires
        pool.free.len() > 0,
    ensures
        pool.top() is Some,
        pool.popped().released(pool.top().unwrap()).free == pool.free,
        pool.popped().released(pool.top().unwrap()).free.len() == pool.free.len(),
{
    assert(pool.free.drop_last().push(pool.free.last()) == pool.free);
}

/// A suspending acquisition on an exhausted pool waits behind those that
/// wait already. The release of any instance then takes the oldest waker out
/// of the queue, which is this acquisition's own if nobody waited before it,
/// and the next poll completes with the instance just released, leaving the
/// pool exhausted again.
pub proof fn law_release_serves_the_waiting<T>(pool: PoolModel<T>, waker: Waker, object: T)
    requires
        pool.free.len() == 0,
    ensures
        pool.top() is None,
        pool.polled(waker).waiters == pool.waiters.push(waker),
        pool.polled(waker).oldest() == Some(
            if pool.waiters.len() > 0 {
                pool.waiters.first()
            } else {
                waker
            },
        ),
        pool.polled(waker).released(object).waiters == pool.waiters.push(waker).drop_first(),
        pool.polled(waker).released(object).top() == Some(object),
        pool.polled(waker).released(object).polled(waker).free.len() == 0,
{
    let waiting = pool.polled(waker);
    assert(waiting.free.push(object).drop_last() == waiting.free);
}

/// A fallback acquisition from an exhausted pool owns the value supplied and
/// leaves the pool as it was. Once that value is released the pool holds one
/// free instance more than before, the value itself, on top.
pub proof fn law_fallback_enters_the_pool<T>(pool: PoolModel<T>, value: T)
    requires
        pool.free.len() == 0,
    ensures
        pool.served_or(value) == value,
        pool.popped() == pool,
        pool.popped().released(value).free.len() == pool.free.len() + 1,
        pool.popped().released(value).top() == Some(value),
{
}

} // verus!
