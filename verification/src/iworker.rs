//! The interface of a worker that hands out `i64` IDs.
use vstd::prelude::*;

verus! {

/// A worker that hands out `i64` IDs.
pub trait IWorker {
    /// The next ID.
    fn next_id(&mut self) -> i64;
}

} // verus!
