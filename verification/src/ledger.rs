//! An account of a pool together with the guards that are out.
//!
//! The pool itself does not count its guards. The ledger does, in ghost
//! state: it follows the pool's model through the operations of the handle
//! and keeps count of the guards that each of them makes or ends. Its laws
//! are the conservation of instances and what follows from it.

use crate::model::PoolModel;
use std::task::Waker;
use vstd::prelude::*;

verus! {

/// A pool and the count of its guards.
pub struct Ledger<T> {
    /// What the pool holds.
    pub pool: PoolModel<T>,
    /// The number of instances that the pool was constructed with.
    pub size: nat,
    /// The live guards whose instance came out of the pool.
    pub lent: nat,
    /// The live guards around a fallback value.
    pub borrowed: nat,
    /// The fallback values that their guards have released into the pool.
    pub adopted: nat,
}

/// One operation on a pool. `locked` says whether the operation's one attempt
/// at the lock succeeded.
pub enum Step<T> {
    /// A non-suspending acquisition.
    TryTake { locked: bool },
    /// One poll of a suspending acquisition.
    Poll { locked: bool, waker: Waker },
    /// A fallback acquisition.
    TakeOr { locked: bool, value: T },
    /// The release of a guard that owns `object` at that time. `fallback`
    /// says that the guard was made around a fallback value.
    Release { object: T, fallback: bool },
}

impl<T> Ledger<T> {
    /// The ledger of a pool right after its construction from `objects`.
    pub open spec fn opening(objects: Seq<T>) -> Self {
        Ledger {
            pool: PoolModel::fresh(objects),
            size: objects.len(),
            lent: 0,
            borrowed: 0,
            adopted: 0,
        }
    }

    /// The number of live guards.
    pub open spec fn live(self) -> nat {
        self.lent + self.borrowed
    }

    /// The number of fallback values brought in so far, released or not.
    pub open spec fn brought_in(self) -> nat {
        self.borrowed + self.adopted
    }

    /// The number of instances that circulate: those that are free or will
    /// come back free.
    pub open spec fn capacity(self) -> nat {
        self.size + self.adopted
    }

    /// Conservation: the free instances and the live guards together are the
    /// instances constructed and those brought in by fallback.
    pub open spec fn balanced(self) -> bool {
        self.pool.free.len() + self.live() == self.size + self.brought_in()
    }

    /// That `step` can happen: only a guard that is out can be released.
    pub open spec fn admits(self, step: Step<T>) -> bool {
        match step {
            Step::Release { object, fallback } => if fallback {
                self.borrowed > 0
            } else {
                self.lent > 0
            },
            _ => true,
        }
    }

    /// The ledger after `step`.
    pub open spec fn after(self, step: Step<T>) -> Self {
        let served: nat = if self.pool.free.len() > 0 {
            1
        } else {
            0
        };
        match step {
            Step::TryTake { locked } => if locked {
                Ledger { pool: self.pool.popped(), lent: self.lent + served, ..self }
            } else {
                self
            },
            Step::Poll { locked, waker } => if locked {
                Ledger { pool: self.pool.polled(waker), lent: self.lent + served, ..self }
            } else {
                self
            },
            Step::TakeOr { locked, value } => if locked && served == 1 {
                Ledger { pool: self.pool.popped(), lent: self.lent + 1, ..self }
            } else {
                Ledger { borrowed: self.borrowed + 1, ..self }
            },
            Step::Release { object, fallback } => if fallback {
                Ledger {
                    pool: self.pool.released(object),
                    borrowed: (self.borrowed - 1) as nat,
                    adopted: self.adopted + 1,
                    ..self
                }
            } else {
                Ledger {
                    pool: self.pool.released(object),
                    lent: (self.lent - 1) as nat,
                    ..self
                }
            },
        }
    }

    /// That `step` is the release of a fallback value, which the pool adopts.
    pub open spec fn adopts(step: Step<T>) -> bool {
        step matches Step::Release { fallback: true, .. }
    }

    /// That `steps` can happen one after the other, starting here.
    pub open spec fn admits_all(self, steps: Seq<Step<T>>) -> bool
        decreases steps.len(),
    {
        if steps.len() == 0 {
            true
        } else {
            self.admits(steps.first()) && self.after(steps.first()).admits_all(steps.drop_first())
        }
    }

    /// The ledger after `steps`, one after the other.
    pub open spec fn after_all(self, steps: Seq<Step<T>>) -> Self
        decreases steps.len(),
    {
        if steps.len() == 0 {
            self
        } else {
            self.after(steps.first()).after_all(steps.drop_first())
        }
    }
}

/// One step keeps a balanced ledger balanced and the constructed size as it
/// is, and never lowers the capacity: the release of a fallback value raises
/// it by one, and nothing else changes it.
pub proof fn law_step_conserves<T>(ledger: Ledger<T>, step: Step<T>)
    requires
        ledger.balanced(),
        ledger.admits(step),
    ensures
        ledger.after(step).balanced(),
        ledger.after(step).size == ledger.size,
        Ledger::adopts(step) ==> ledger.after(step).capacity() == ledger.capacity() + 1,
        !Ledger::adopts(step) ==> ledger.after(step).capacity() == ledger.capacity(),
{
}

/// Whatever happens to a pool after its construction, its ledger stays
/// balanced: the free instances and the live guards together are the
/// instances constructed and the fallback values brought in. So the live
/// guards never outnumber those, and the capacity never falls below the size
/// that the pool was constructed with.
pub proof fn law_every_state_balanced<T>(objects: Seq<T>, steps: Seq<Step<T>>)
    requires
        Ledger::opening(objects).admits_all(steps),
    ensures
        Ledger::opening(objects).after_all(steps).balanced(),
        Ledger::opening(objects).after_all(steps).size == objects.len(),
        Ledger::opening(objects).after_all(steps).live() <= objects.len() + Ledger::opening(
            objects,
        ).after_all(steps).brought_in(),
        Ledger::opening(objects).after_all(steps).capacity() >= objects.len(),
{
    lemma_run_conserves(Ledger::opening(objects), steps);
}

/// Capacity is permanent: no sequence of steps lowers it.
pub proof fn law_capacity_never_shrinks<T>(ledger: Ledger<T>, steps: Seq<Step<T>>)
    requires
        ledger.balanced(),
        ledger.admits_all(steps),
    ensures
        ledger.after_all(steps).capacity() >= ledger.capacity(),
{
    lemma_run_conserves(ledger, steps);
}

/// A fallback acquisition on an exhausted pool makes a guard around the value
/// supplied and leaves the pool alone. Once that guard is released, whatever
/// it then owns, the capacity is one greater than before, and it stays so
/// through everything that follows.
pub proof fn law_fallback_grows_capacity_for_good<T>(
    ledger: Ledger<T>,
    locked: bool,
    value: T,
    object: T,
    later: Seq<Step<T>>,
)
    requires
        ledger.balanced(),
        ledger.pool.free.len() == 0,
        ledger.after(Step::TakeOr { locked, value }).after(
            Step::Release { object, fallback: true },
        ).admits_all(later),
    ensures
        ledger.pool.served_or(value) == value,
        ledger.after(Step::TakeOr { locked, value }).pool == ledger.pool,
        ledger.after(Step::TakeOr { locked, value }).borrowed == ledger.borrowed + 1,
        ledger.after(Step::TakeOr { locked, value }).admits(
            Step::Release { object, fallback: true },
        ),
        ledger.after(Step::TakeOr { locked, value }).after(
            Step::Release { object, fallback: true },
        ).capacity() == ledger.capacity() + 1,
        ledger.after(Step::TakeOr { locked, value }).after(
            Step::Release { object, fallback: true },
        ).after_all(later).capacity() >= ledger.capacity() + 1,
{
    let borrowed = ledger.after(Step::TakeOr { locked, value });
    law_step_conserves(ledger, Step::TakeOr { locked, value });
    law_step_conserves(borrowed, Step::Release { object, fallback: true });
    lemma_run_conserves(borrowed.after(Step::Release { object, fallback: true }), later);
}

/// In a balanced ledger the live guards never outnumber the instances
/// constructed and the fallback values brought in, released or not.
pub proof fn law_live_guards_bounded<T>(ledger: Ledger<T>)
    requires
        ledger.balanced(),
    ensures
        ledger.live() <= ledger.size + ledger.brought_in(),
{
}

/// The narrower bound, by the constructed size and the fallback values that
/// are still out, holds while at least as many instances are free as the pool
/// has adopted, and only then: an adopted instance that is lent out again is a
/// live guard beyond that bound.
pub proof fn law_live_guards_within_size<T>(ledger: Ledger<T>)
    requires
        ledger.balanced(),
    ensures
        ledger.live() <= ledger.size + ledger.borrowed <==> ledger.pool.free.len()
            >= ledger.adopted,
{
}

proof fn lemma_run_conserves<T>(ledger: Ledger<T>, steps: Seq<Step<T>>)
    requires
        ledger.balanced(),
        ledger.admits_all(steps),
    ensures
        ledger.after_all(steps).balanced(),
        ledger.after_all(steps).size == ledger.size,
        ledger.after_all(steps).capacity() >= ledger.capacity(),
    decreases steps.len(),
{
    if steps.len() > 0 {
        law_step_conserves(ledger, steps.first());
        lemma_run_conserves(ledger.after(steps.first()), steps.drop_first());
    }
}

} // verus!
