//! Threads, as far as this platform has them: it cannot start one.

use crate::error::{fails_with, unsupported, Error, ErrorKind};
use vstd::prelude::*;

pub mod guard;

verus! {

pub const DEFAULT_MIN_STACK_SIZE: usize = 4096;

/// A thread that this library started. No function of this library makes
/// one.
#[derive(Debug)]
pub struct Thread {
    never: (),
}

impl Thread {
    /// Starts a thread that runs `p` on a stack of `stack` bytes. The platform
    /// cannot, and `p` is never run.
    pub fn new<F: FnOnce()>(stack: usize, p: F) -> (r: Result<Thread, Error>)
        ensures
            fails_with(r, ErrorKind::Unsupported, "operation not supported on this platform"),
    {
        Err(unsupported())
    }

    /// Gives the processor up for a moment. There is nothing to do.
    pub fn yield_now() {
    }

    /// Names the running thread. The platform keeps no names.
    pub fn set_name(name: &[u8]) {
    }

    /// Waits for the thread to end.
    pub fn join(self) {
    }
}

/// The number of the running thread, given what the system said when asked:
/// the low 32 bits of the number it gave, and 0 where it gave none.
pub open spec fn spec_my_id(current: Option<usize>) -> u32 {
    match current {
        Some(tid) => (tid as int % 0x1_0000_0000) as u32,
        None => 0,
    }
}

pub fn my_id(current: Option<usize>) -> (id: u32)
    ensures
        id == spec_my_id(current),
{
    match current {
        Some(tid) => (tid as u64 % 0x1_0000_0000) as u32,
        None => 0,
    }
}

} // verus!
