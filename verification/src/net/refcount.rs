//! The count of the handles that share one remote listener.
//!
//! The count lives in one atomic integer that all duplicates of a listener
//! hold together. What it holds at any moment depends on what the other
//! holders have done, so the executable operations promise nothing of the
//! numbers they see. What the count does over a history of duplications and
//! destructions is stated here on a model of that history.

use std::sync::atomic::AtomicUsize;
use std::sync::Arc;
use vstd::prelude::*;

verus! {

/// One holder's share of the count.
#[derive(Debug)]
pub struct HandleCount {
    count: Arc<AtomicUsize>,
}

impl HandleCount {
    /// The count of a listener that was just bound: one handle.
    pub(crate) fn new() -> HandleCount {
        HandleCount { count: Arc::new(AtomicUsize::new(1)) }
    }

    /// The two shares are of one and the same count.
    pub closed spec fn same_count(self, other: HandleCount) -> bool {
        self.count == other.count
    }

    /// To be of the same count is an equivalence.
    pub proof fn lemma_same_count(self, b: HandleCount, c: HandleCount)
        ensures
            self.same_count(self),
            self.same_count(b) ==> b.same_count(self),
            self.same_count(b) && b.same_count(c) ==> self.same_count(c),
    {
    }

    /// Counts one more handle and gives it its share.
    pub(crate) fn acquire(&self) -> (r: HandleCount)
        ensures
            r.same_count(*self),
    {
        let _before: usize = self.count.fetch_add(1, core::sync::atomic::Ordering::Relaxed);
        HandleCount { count: self.count.clone() }
    }

    /// Gives this share up, and says how many handles there were, this one
    /// among them. Counting down and reading are one atomic step.
    pub(crate) fn release(self) -> usize {
        self.count.fetch_sub(1, core::sync::atomic::Ordering::Relaxed)
    }
}

/// A destruction that found `before` handles, its own among them, was that
/// of the last handle.
pub open spec fn spec_is_last(before: usize) -> bool {
    before == 1
}

#[verifier::when_used_as_spec(spec_is_last)]
pub fn is_last(before: usize) -> (b: bool)
    ensures
        b == spec_is_last(before),
{
    before == 1
}

/// What can happen to the handles of one listener.
pub enum HandleEvent {
    /// A handle is duplicated.
    Duplicate,
    /// A handle is destroyed.
    Drop,
}

/// The number of handles after a history, for a listener that was bound with
/// one handle.
pub open spec fn live_after(history: Seq<HandleEvent>) -> int
    decreases history.len(),
{
    if history.len() == 0 {
        1
    } else if history.last() is Duplicate {
        live_after(history.drop_last()) + 1
    } else {
        live_after(history.drop_last()) - 1
    }
}

/// Each event of the history happens to a handle that is there, and the
/// count never outgrows its integer.
pub open spec fn possible(history: Seq<HandleEvent>) -> bool
    decreases history.len(),
{
    history.len() == 0 || (possible(history.drop_last()) && 1 <= live_after(history.drop_last())
        && live_after(history) <= usize::MAX)
}

/// The number of destructions in a history that found themselves to be the
/// last: each of them tears the remote listener down.
pub open spec fn teardowns(history: Seq<HandleEvent>) -> int
    decreases history.len(),
{
    if history.len() == 0 {
        0
    } else if history.last() is Drop && spec_is_last(live_after(history.drop_last()) as usize) {
        teardowns(history.drop_last()) + 1
    } else {
        teardowns(history.drop_last())
    }
}

/// Over any history of duplications and destructions, the remote listener is
/// torn down exactly once when the last handle has gone, and not at all while
/// a handle is left.
pub proof fn lemma_torn_down_once(history: Seq<HandleEvent>)
    requires
        possible(history),
    ensures
        0 <= live_after(history) <= usize::MAX,
        teardowns(history) == if live_after(history) == 0 {
            1int
        } else {
            0int
        },
    decreases history.len(),
{
    if history.len() != 0 {
        lemma_torn_down_once(history.drop_last());
    }
}

/// The history of `n` duplications followed by `k` destructions.
pub open spec fn dups_then_drops(n: nat, k: nat) -> Seq<HandleEvent> {
    Seq::new(
        n + k,
        |i: int|
            if i < n {
                HandleEvent::Duplicate
            } else {
                HandleEvent::Drop
            },
    )
}

/// After `n` duplications, destroying fewer than all `n + 1` handles tears
/// nothing down, and destroying all of them tears the remote listener down
/// exactly once.
pub proof fn lemma_duplicates_share_one_teardown(n: nat, k: nat)
    requires
        k <= n + 1,
        n + 1 <= usize::MAX,
    ensures
        possible(dups_then_drops(n, k)),
        live_after(dups_then_drops(n, k)) == n + 1 - k,
        teardowns(dups_then_drops(n, k)) == if k == n + 1 {
            1int
        } else {
            0int
        },
    decreases n + k,
{
    let h = dups_then_drops(n, k);
    if k > 0 {
        lemma_duplicates_share_one_teardown(n, (k - 1) as nat);
        assert(h.drop_last() =~= dups_then_drops(n, (k - 1) as nat));
        assert(h.last() is Drop);
    } else if n > 0 {
        lemma_duplicates_share_one_teardown((n - 1) as nat, 0);
        assert(h.drop_last() =~= dups_then_drops((n - 1) as nat, 0));
        assert(h.last() is Duplicate);
    }
    lemma_torn_down_once(h);
}

} // verus!
