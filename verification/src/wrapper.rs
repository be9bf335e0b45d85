//! A minimal cell for handing a value to the host runtime, which wraps
//! shared resources such as the opened store before passing them across
//! its boundary.
use vstd::prelude::*;

verus! {

pub struct Wrapper<T> {
    pub value: T,
}

impl<T> Wrapper<T> {
    /// Wrap a value, unchanged.
    pub fn new(value: T) -> (r: Wrapper<T>)
        ensures
            r.value == value,
    {
        Wrapper { value }
    }
}

} // verus!
