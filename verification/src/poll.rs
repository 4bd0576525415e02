use vstd::prelude::*;

verus! {

/// Progress of an operation that is polled: finished with a value, or not yet.
#[derive(Debug)]
pub enum Poll<T> {
    Ready(T),
    Pending,
}

} // verus!
