//! What an event manager reads from the state of the fuzzer.

use vstd::prelude::*;

verus! {

/// A fuzzer state that counts the executions of its target.
pub trait HasExecutions {
    /// The number of executions so far.
    spec fn execution_count(&self) -> usize;

    /// The number of executions so far.
    fn executions(&self) -> (executions: &usize)
        ensures
            *executions == self.execution_count(),
    ;
}

/// A fuzzer state that monitors the stability of its target.
pub trait HasClientPerfMonitor {
    /// The stability measured so far, if any, as the bit pattern of an `f64`.
    spec fn stability_bits(&self) -> Option<u64>;

    /// The stability measured so far, if any, as the bit pattern of an `f64`.
    fn stability(&self) -> (stability: Option<u64>)
        ensures
            stability == self.stability_bits(),
    ;
}

} // verus!
