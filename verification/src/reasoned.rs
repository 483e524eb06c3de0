//! Decision results paired with their justification trail, and the
//! declared errors of the sizing engine.

use vstd::prelude::*;

verus! {

/// A decision or value together with the ordered, append-only sequence of
/// human-readable reasons that produced it.
#[derive(Debug)]
pub struct ReasonedResult<T> {
    pub result: T,
    pub reasons: Vec<String>,
}

/// The declared errors of the sizing engine.
#[derive(Clone, Copy, Debug, PartialEq, Eq)]
pub enum SizerError {
    /// A configured value was outside its documented domain, such as an
    /// instance footprint without any memory or cpu cost.
    InvalidInput,
    /// The minimum-node search cannot converge: the workload does not fit
    /// any cluster within the permitted node count.
    UnsatisfiableCapacity,
}

} // verus!
