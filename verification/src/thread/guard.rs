//! The guard page of a thread's stack. This platform has none.

use vstd::prelude::*;

verus! {

/// A guard page. No function of this library makes one.
#[derive(Debug)]
pub struct Guard {
    never: (),
}

/// The guard page of the running thread: none.
pub fn current() -> (r: Option<Guard>)
    ensures
        r is None,
{
    None
}

/// Sets the guard page of the running thread up: there is none to set up.
pub fn init() -> (r: Option<Guard>)
    ensures
        r is None,
{
    None
}

} // verus!
