//! Dirty-state tracking: a single flag recording whether a relevant source
//! file was touched since the last verified check.

use vstd::prelude::*;

verus! {

/// One-bit state meaning "a relevant source file changed since the last
/// verification". The turn observer sets it; the verification trigger
/// atomically takes and clears it. Callers that share the flag across tasks
/// wrap it in a mutual-exclusion primitive; `take_and_clear` performing the
/// read and the reset in one call is what makes the take atomic under such a
/// lock.
pub struct DirtyFlag {
    dirty: bool,
}

impl View for DirtyFlag {
    type V = bool;

    closed spec fn view(&self) -> bool {
        self.dirty
    }
}

/// State after a `mark_dirty` call, whatever the state before.
pub open spec fn spec_mark_dirty(s: bool) -> bool {
    true
}

/// State after a `take_and_clear` call, whatever the state before.
pub open spec fn spec_take_state(s: bool) -> bool {
    false
}

/// What `take_and_clear` returns when the state before the call is `s`.
pub open spec fn spec_take_result(s: bool) -> bool {
    s
}

/// State after `n` consecutive `mark_dirty` calls starting from `s`.
pub open spec fn spec_mark_dirty_n(s: bool, n: nat) -> bool
    decreases n,
{
    if n == 0 {
        s
    } else {
        spec_mark_dirty(spec_mark_dirty_n(s, (n - 1) as nat))
    }
}

impl DirtyFlag {
    /// The flag starts clear: nothing is dirty at process start.
    pub fn new() -> (flag: DirtyFlag)
        ensures
            !flag@,
    {
        DirtyFlag { dirty: false }
    }

    /// Record that a relevant source file was edited.
    pub fn mark_dirty(&mut self)
        ensures
            final(self)@ == spec_mark_dirty(old(self)@),
    {
        self.dirty = true;
    }

    /// Read the flag and reset it to false in one call: the returned value is
    /// whatever was set since the previous take (or since the start).
    pub fn take_and_clear(&mut self) -> (was: bool)
        ensures
            was == spec_take_result(old(self)@),
            final(self)@ == spec_take_state(old(self)@),
    {
        let was: bool = self.dirty;
        self.dirty = false;
        was
    }
}

/// Law: `take_and_clear` called twice in a row, with no intervening
/// `mark_dirty`, on a flag that is set, returns true and then false.
pub proof fn lemma_take_and_clear_twice(s: bool)
    requires
        s,
    ensures
        spec_take_result(s),
        !spec_take_result(spec_take_state(s)),
{
}

/// Law: once an edit marks the tracker, the take at the next end of turn
/// returns true exactly once: whatever the state was before the edit, the
/// first take observes it and a second take without further edits does not.
pub proof fn lemma_edit_then_single_check(s: bool)
    ensures
        spec_take_result(spec_mark_dirty(s)),
        !spec_take_result(spec_take_state(spec_mark_dirty(s))),
{
}

/// Law: calling `mark_dirty` any number n >= 1 of times before one
/// `take_and_clear` leaves the tracker in the same state as calling it once,
/// so the take (and everything after it) observes the same values.
pub proof fn lemma_mark_dirty_idempotent(s: bool, n: nat)
    requires
        n >= 1,
    ensures
        spec_mark_dirty_n(s, n) == spec_mark_dirty(s),
        spec_take_result(spec_mark_dirty_n(s, n)) == spec_take_result(spec_mark_dirty(s)),
        spec_take_state(spec_mark_dirty_n(s, n)) == spec_take_state(spec_mark_dirty(s)),
    decreases n,
{
    if n > 1 {
        lemma_mark_dirty_idempotent(s, (n - 1) as nat);
    }
}

} // verus!
