use object_pool::{Polled, Pool, PoolGuard};
use std::future::{poll_fn, Future};
use std::task::Poll;
use tokio::runtime::Builder;

/// A suspending acquisition as a future of the runtime.
fn acquire<'a, T: 'static + Default + Send>(
    pool: &'a Pool<T>,
) -> impl Future<Output = PoolGuard<'a, T>> {
    let acquisition = pool.take();
    poll_fn(move |context| match acquisition.poll(context.waker()) {
        Polled::Ready(guard) => Poll::Ready(guard),
        Polled::Pending => Poll::Pending,
    })
}

/// The release of a guard, deferred to a task of its own.
fn release_later<T: 'static + Default + Send>(guard: PoolGuard<'_, T>) {
    let (content, pool) = guard.into_parts();
    let shared = pool.shared();
    tokio::spawn(async move {
        shared.lock().await.give_back(content);
    });
}

#[test]
fn runtime_resumes_the_third_acquisition_after_a_release() {
    let runtime = Builder::new_current_thread().build().unwrap();
    runtime.block_on(async {
        let pool = Pool::new(2, String::new);
        let mut first = acquire(&pool).await;
        let mut second = acquire(&pool).await;
        first.get_mut().push_str("first");
        second.get_mut().push_str("second");
        assert!(pool.try_take().is_none());

        release_later(first);
        // The release has not run yet: the pool is still exhausted, so this
        // acquisition suspends and is woken by the release.
        assert!(pool.try_take().is_none());
        let third = acquire(&pool).await;
        assert_eq!(third.get(), "first");
        assert_eq!(second.get(), "second");
        assert!(pool.try_take().is_none());
    });
}

#[test]
fn runtime_acquisitions_on_a_full_pool_do_not_suspend() {
    let runtime = Builder::new_current_thread().build().unwrap();
    runtime.block_on(async {
        let pool = Pool::new(3, || 5u8);
        let first = acquire(&pool).await;
        let second = acquire(&pool).await;
        let third = acquire(&pool).await;
        assert_eq!((*first.get(), *second.get(), *third.get()), (5, 5, 5));
        assert!(pool.try_take().is_none());
    });
}

#[test]
fn runtime_fallback_instance_serves_a_later_acquisition() {
    let runtime = Builder::new_current_thread().build().unwrap();
    runtime.block_on(async {
        let pool: Pool<String> = Pool::new(0, String::new);
        let borrowed = pool.take_or(String::from("spare"));
        assert_eq!(borrowed.get(), "spare");
        release_later(borrowed);
        let served = acquire(&pool).await;
        assert_eq!(served.get(), "spare");
        release_later(served);
        let again = acquire(&pool).await;
        assert_eq!(again.get(), "spare");
    });
}

#[test]
fn runtime_every_release_serves_one_waiting_task() {
    let runtime = Builder::new_current_thread().build().unwrap();
    runtime.block_on(async {
        let pool = Pool::new(1, || 0u32);
        let mut served = Vec::new();
        for round in 1..=4u32 {
            let mut guard = acquire(&pool).await;
            served.push(*guard.get());
            *guard.get_mut() = round;
            release_later(guard);
        }
        assert_eq!(served, vec![0, 1, 2, 3]);
    });
}
