//! A one-slot, latest-value-wins wake signal.
//!
//! The slot carries no payload: subscribers re-read the live session state,
//! so however many mutations raced ahead of a drain, one wake-up is enough
//! and never stale.

use vstd::prelude::*;

verus! {

/// A coalescing signal: raised by every accepted mutation, lowered by the
/// subscriber loop that drains it.
pub struct Notifier {
    /// Whether a wake is owed to the subscribers.
    pub pending: bool,
}

/// The slot after `n` further signals have been raised on it.
pub open spec fn after_signals(pending: bool, n: nat) -> bool
    decreases n,
{
    if n == 0 {
        pending
    } else {
        after_signals(true, (n - 1) as nat)
    }
}

/// Coalescing law: any burst of signals leaves the slot simply raised, so a
/// subscriber that then drains it observes exactly one wake, whatever the
/// burst's length and whatever the slot held before.
pub proof fn lemma_signals_coalesce(pending: bool, n: nat)
    requires
        n >= 1,
    ensures
        after_signals(pending, n) == after_signals(pending, 1),
        after_signals(pending, n) == true,
    decreases n,
{
    reveal_with_fuel(after_signals, 2);
    if n > 1 {
        lemma_signals_coalesce(true, (n - 1) as nat);
    }
}

impl Notifier {
    /// A fresh slot with no wake pending.
    pub fn new() -> (n: Notifier)
        ensures
            !n.pending,
    {
        Notifier { pending: false }
    }

    /// Raises the signal.  Raising an already-raised slot changes nothing:
    /// that is the coalescing.
    pub fn signal(&mut self)
        ensures
            final(self).pending,
            final(self).pending == after_signals(old(self).pending, 1),
    {
        proof {
            reveal_with_fuel(after_signals, 2);
        }
        self.pending = true;
    }

    /// Takes the pending wake, if any, and lowers the slot: of any burst of
    /// signals, at most one wake is ever handed out.
    pub fn drain(&mut self) -> (woke: bool)
        ensures
            woke == old(self).pending,
            !final(self).pending,
    {
        let woke = self.pending;
        self.pending = false;
        woke
    }
}

} // verus!
