use vstd::prelude::*;
use crate::error::WatchtowerError;

pub mod round_robin;

pub use round_robin::{RoundRobinLoadBalancer, RoundRobinView};

verus! {

/// A strategy that picks the next candidate of a pool of fixed size.
pub trait LoadBalancer {
    /// The number of candidates that the strategy selects among.
    spec fn pool_size(&self) -> nat;

    /// Picks the next candidate. The pool never changes size; an empty pool
    /// gives `EmptyPool`, any other an index into the pool.
    fn get_next_index(&mut self) -> (result: Result<usize, WatchtowerError>)
        ensures
            final(self).pool_size() == old(self).pool_size(),
            old(self).pool_size() == 0 ==> result == Err::<usize, WatchtowerError>(
                WatchtowerError::EmptyPool,
            ),
            old(self).pool_size() > 0 ==> result is Ok && result->Ok_0 < old(self).pool_size(),
    ;
}

} // verus!
