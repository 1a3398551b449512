//! The wakers of the standard library, as far as the pool uses them.

use std::task::Waker;
use vstd::prelude::*;

verus! {

/// `std::task::Waker`. Nothing is known of its inside: to the verifier a
/// waker is no more than a name for the task that it wakes.
#[verifier::external_type_specification]
#[verifier::external_body]
pub struct ExWaker(Waker);

/// `Clone::clone` of a `Waker`: a duplicate, which wakes the same task and is
/// therefore the same value to the verifier. This holds only as long as a
/// waker is read as the task that it wakes: no contract may speak of a waker's
/// data or of `will_wake`, which can tell a duplicate from its source.
pub assume_specification[ <Waker as Clone>::clone ](waker: &Waker) -> (duplicate: Waker)
    ensures
        duplicate == *waker,
;

/// `Waker::wake`: asks the scheduler to poll the task again. It returns
/// nothing, and nothing is claimed of it.
pub assume_specification[ Waker::wake ](waker: Waker)
;

} // verus!
