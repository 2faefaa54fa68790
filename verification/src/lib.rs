//! A minimal ledger counter contract: one persisted integer slot with two
//! state transitions, `increment` and `reset`, and a read-only accessor
//! `get_count`. The slot may be absent (a fresh contract has stored nothing
//! yet); an absent slot reads as zero.

use vstd::prelude::*;

verus! {

/// The mathematical transition of one `increment` call: the count grows by one.
pub open spec fn spec_increment(count: nat) -> nat {
    count + 1
}

/// The mathematical transition of one `reset` call: the count becomes zero,
/// whatever it was before.
pub open spec fn spec_reset(count: nat) -> nat {
    0
}

/// The count reached by `n` consecutive `increment` transitions from `start`.
pub open spec fn count_after_increments(start: nat, n: nat) -> nat
    decreases n,
{
    if n == 0 {
        start
    } else {
        spec_increment(count_after_increments(start, (n - 1) as nat))
    }
}

/// A counter contract: the single persisted entry of the contract's storage.
///
/// `None` models a fresh storage scope in which nothing was ever written;
/// reads treat that state as a count of zero.
pub struct IncrementContract {
    stored: Option<u32>,
}

impl IncrementContract {
    /// The observable count: the stored value, or zero while nothing is stored.
    pub closed spec fn count(&self) -> u32 {
        match self.stored {
            Some(c) => c,
            None => 0,
        }
    }

    /// A fresh contract: nothing stored yet, so the count reads as zero.
    pub fn new() -> (contract: Self)
        ensures
            contract.count() == 0,
    {
        IncrementContract { stored: None }
    }

    /// Read the current count without mutating anything.
    pub fn get_count(&self) -> (count: u32)
        ensures
            count == self.count(),
    {
        match self.stored {
            Some(c) => c,
            None => 0,
        }
    }

    /// Add one to the count, persist the new value, and return it.
    ///
    /// Overflow policy: the host's integer width is the hard limit, and this
    /// contract makes the limit explicit rather than wrapping or saturating —
    /// a call is admitted only while the count is below `u32::MAX`.
    pub fn increment(&mut self) -> (count: u32)
        requires
            old(self).count() < u32::MAX,
        ensures
            final(self).count() == spec_increment(old(self).count() as nat),
            count == final(self).count(),
    {
        let count: u32 = self.get_count() + 1;
        self.stored = Some(count);
        count
    }

    /// Set the count to zero and persist it, whatever the prior value was.
    pub fn reset(&mut self)
        ensures
            final(self).count() == spec_reset(old(self).count() as nat),
            final(self).count() == 0,
    {
        self.stored = Some(0);
    }
}

/// Law: a sequence of `n` `increment` transitions applied to a fresh counter
/// (count zero) reaches exactly the count `n`.
pub proof fn lemma_fresh_counter_counts_increments(n: nat)
    ensures
        count_after_increments(0, n) == n,
    decreases n,
{
    if n != 0 {
        lemma_fresh_counter_counts_increments((n - 1) as nat);
    }
}

/// Law: `reset` is idempotent — a second `reset` right after a first one
/// changes nothing, and either way the count ends at zero.
pub proof fn lemma_reset_idempotent(count: nat)
    ensures
        spec_reset(spec_reset(count)) == spec_reset(count),
        spec_reset(spec_reset(count)) == 0,
{
}

} // verus!
