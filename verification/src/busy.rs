//! A busy flag with a guard: the smallest form of the single execution slot.

use vstd::prelude::*;

verus! {

/// The flag was already set.
#[derive(Debug, Clone, Copy, PartialEq, Eq, Structural)]
pub struct AlreadyBusy;

impl AlreadyBusy {
    /// The text of the error.
    pub fn message(&self) -> (text: &'static str)
        ensures
            text@ == "Already busy."@,
    {
        "Already busy."
    }
}

/// A flag that is set while some operation runs.
pub struct Busy {
    busy: bool,
}

/// Token of a set flag. It is made by [`Busy::lock`] alone and handed back to
/// [`Busy::release`].
#[derive(Debug)]
pub struct BusyGuard {
    held: (),
}

impl View for Busy {
    type V = bool;

    closed spec fn view(&self) -> bool {
        self.busy
    }
}

impl Busy {
    /// A flag that is not set.
    pub fn new() -> (flag: Self)
        ensures
            !flag@,
    {
        Busy { busy: false }
    }

    /// Whether the flag is set.
    pub fn is_busy(&self) -> (busy: bool)
        ensures
            busy == self@,
    {
        self.busy
    }

    /// What one attempt to lock does to a flag whose value is `busy`: the
    /// value afterwards, and whether the attempt succeeds.
    pub open spec fn spec_lock(busy: bool) -> (bool, bool) {
        (true, !busy)
    }

    /// Sets the flag and hands out its guard, or fails at once where the flag
    /// is set already. The flag is set afterwards either way.
    pub fn lock(&mut self) -> (guard: Result<BusyGuard, AlreadyBusy>)
        ensures
            (final(self)@, guard.is_ok()) == Self::spec_lock(old(self)@),
    {
        if self.busy {
            Err(AlreadyBusy)
        } else {
            self.busy = true;
            Ok(BusyGuard { held: () })
        }
    }

    /// Takes the guard back and clears the flag, whatever happened while it
    /// was held.
    pub fn release(&mut self, guard: BusyGuard)
        ensures
            !final(self)@,
    {
        self.busy = false;
    }
}

/// How many of `attempts` calls of [`Busy::lock`] in a row, with no release
/// between them, succeed on a flag whose value is `busy`.
pub open spec fn lock_successes(busy: bool, attempts: nat) -> nat
    decreases attempts,
{
    if attempts == 0 {
        0
    } else {
        let (next, succeeded) = Busy::spec_lock(busy);
        (if succeeded { 1nat } else { 0nat }) + lock_successes(next, (attempts - 1) as nat)
    }
}

/// Mutual exclusion: of any number of attempts to lock with no release
/// between them, none succeeds on a set flag and exactly the first on a clear
/// one.
pub proof fn lemma_lock_exclusive(busy: bool, attempts: nat)
    ensures
        busy ==> lock_successes(busy, attempts) == 0,
        !busy && attempts > 0 ==> lock_successes(busy, attempts) == 1,
        lock_successes(busy, attempts) <= 1,
    decreases attempts,
{
    if attempts > 0 {
        lemma_lock_exclusive(true, (attempts - 1) as nat);
    }
}

} // verus!
