//! Spans of time, as far as socket timeouts need them.

use vstd::prelude::*;

verus! {

/// A span of time: whole seconds and a rest in nanoseconds.
#[derive(Clone, Copy, Debug, PartialEq, Eq, Structural)]
pub struct Duration {
    pub secs: u64,
    pub nanos: u32,
}

impl Duration {
    /// The whole milliseconds in this span.
    pub open spec fn spec_as_millis(self) -> nat {
        (self.secs * 1000 + self.nanos / 1_000_000) as nat
    }

    /// The empty span.
    pub fn zero() -> (d: Duration)
        ensures
            d == (Duration { secs: 0, nanos: 0 }),
            d.spec_as_millis() == 0,
    {
        Duration { secs: 0, nanos: 0 }
    }

    /// The span of `millis` milliseconds.
    pub fn from_millis(millis: u64) -> (d: Duration)
        ensures
            d == (Duration { secs: millis / 1000, nanos: ((millis % 1000) * 1_000_000) as u32 }),
            d.spec_as_millis() == millis,
            d.nanos < 1_000_000_000,
    {
        let secs: u64 = millis / 1000;
        let rest: u32 = (millis % 1000) as u32;
        Duration { secs, nanos: rest * 1_000_000 }
    }

    /// The whole milliseconds in this span; what is left of a millisecond is
    /// dropped.
    pub fn as_millis(&self) -> (m: u128)
        ensures
            m == self.spec_as_millis(),
    {
        let whole: u128 = self.secs as u128 * 1000;
        let part: u128 = (self.nanos / 1_000_000) as u128;
        whole + part
    }
}

/// A timeout as the sockets keep it: whole milliseconds in 32 bits, cut off at
/// the largest value, with 0 for "none".
pub open spec fn spec_timeout_millis(timeout: Option<Duration>) -> u32 {
    match timeout {
        Some(d) => if d.spec_as_millis() > u32::MAX {
            u32::MAX
        } else {
            d.spec_as_millis() as u32
        },
        None => 0,
    }
}

pub fn timeout_millis(timeout: Option<Duration>) -> (t: u32)
    ensures
        t == spec_timeout_millis(timeout),
{
    match timeout {
        Some(d) => {
            let m: u128 = d.as_millis();
            if m > u32::MAX as u128 {
                u32::MAX
            } else {
                m as u32
            }
        },
        None => 0,
    }
}

/// A kept timeout as the caller reads it back: nothing for 0, else the span
/// of that many milliseconds.
pub open spec fn spec_timeout_duration(millis: u32) -> Option<Duration> {
    if millis == 0 {
        None
    } else {
        Some(
            Duration {
                secs: (millis / 1000) as u64,
                nanos: ((millis % 1000) * 1_000_000) as u32,
            },
        )
    }
}

pub fn timeout_duration(millis: u32) -> (d: Option<Duration>)
    ensures
        d == spec_timeout_duration(millis),
{
    if millis == 0 {
        None
    } else {
        Some(Duration::from_millis(millis as u64))
    }
}

/// A timeout of whole milliseconds that fits in 32 bits and is not zero is
/// read back exactly as it was set.
pub proof fn lemma_timeout_read_back(d: Duration)
    requires
        d.nanos < 1_000_000_000,
        d.nanos % 1_000_000 == 0,
        0 < d.spec_as_millis() <= u32::MAX,
    ensures
        spec_timeout_duration(spec_timeout_millis(Some(d))) == Some(d),
{
}

/// A kept timeout that is read back and set again is kept unchanged.
pub proof fn lemma_timeout_kept(millis: u32)
    ensures
        spec_timeout_millis(spec_timeout_duration(millis)) == millis,
{
}

} // verus!
