use vstd::prelude::*;

verus! {

/// The answer of an operation that may not be finished yet.
#[derive(Debug, PartialEq, Eq)]
pub enum Poll<T> {
    /// The operation finished with this value.
    Ready(T),
    /// The operation is still under way.
    Pending,
}

} // verus!
