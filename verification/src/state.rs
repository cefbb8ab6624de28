//! Snapshot-based form state: a saved `baseline` copy and a live `current`
//! copy of a holder value, for dirty tracking, reset and diffing.

use vstd::prelude::*;
use vstd::std_specs::cmp::PartialEqSpec;

verus! {

/// Holds two copies of a holder value: the saved `baseline` (captured at
/// construction or at the last `sync_baseline`) and the live `current` value
/// that the UI edits.
pub struct FormState<H> {
    baseline: H,
    current: H,
}

/// Cloning a holder gives a value that compares equal to the original, in
/// both directions. Holders whose `Clone` and `PartialEq` are derived behave
/// so; the dirty-tracking laws below hold for exactly such holders.
pub open spec fn clone_preserves_eq<H: Clone + PartialEq>() -> bool {
    forall|a: H, b: H| #[trigger] cloned(a, b) ==> a.eq_spec(&b) && b.eq_spec(&a)
}

impl<H> FormState<H> {
    /// The saved reference value.
    pub closed spec fn spec_baseline(&self) -> H {
        self.baseline
    }

    /// The live value.
    pub closed spec fn spec_current(&self) -> H {
        self.current
    }
}

impl<H: PartialEq> FormState<H> {
    /// Whether the live value differs from the baseline, as the holder's
    /// equality specifies it.
    pub open spec fn spec_is_dirty(&self) -> bool {
        !self.spec_current().eq_spec(&self.spec_baseline())
    }
}

impl<H: Clone> FormState<H> {
    /// Creates a state whose `current` is `holder` and whose `baseline` is a
    /// clone of it.
    pub fn new(holder: H) -> (r: Self)
        ensures
            r.spec_current() == holder,
            cloned(holder, r.spec_baseline()),
    {
        let baseline = holder.clone();
        FormState { baseline, current: holder }
    }

    /// Borrows the live value.
    pub fn current(&self) -> (r: &H)
        ensures
            *r == self.spec_current(),
    {
        &self.current
    }

    /// Borrows the saved value.
    pub fn baseline(&self) -> (r: &H)
        ensures
            *r == self.spec_baseline(),
    {
        &self.baseline
    }

    /// Mutably borrows the live value; what is written through the reference
    /// becomes the new live value, and the baseline is untouched.
    pub fn current_mut(&mut self) -> (r: &mut H)
        ensures
            *r == old(self).spec_current(),
            final(self).spec_current() == *final(r),
            final(self).spec_baseline() == old(self).spec_baseline(),
    {
        &mut self.current
    }

    /// Overwrites the live value with `holder`; the baseline is untouched.
    pub fn replace_current(&mut self, holder: H)
        ensures
            final(self).spec_current() == holder,
            final(self).spec_baseline() == old(self).spec_baseline(),
    {
        self.current = holder;
    }

    /// Consumes the state and returns the live value.
    pub fn into_current(self) -> (r: H)
        ensures
            r == self.spec_current(),
    {
        self.current
    }

    /// Replaces the live value with a clone of the baseline.
    pub fn reset_to_baseline(&mut self)
        ensures
            cloned(old(self).spec_baseline(), final(self).spec_current()),
            final(self).spec_baseline() == old(self).spec_baseline(),
    {
        self.current = self.baseline.clone();
    }

    /// Snapshots a clone of the live value into the baseline (call after a
    /// successful save); the live value is untouched.
    pub fn sync_baseline(&mut self)
        ensures
            cloned(old(self).spec_current(), final(self).spec_baseline()),
            final(self).spec_current() == old(self).spec_current(),
    {
        self.baseline = self.current.clone();
    }
}

impl<H: PartialEq> FormState<H> {
    /// Whether the live value differs from the saved baseline
    /// (`current != baseline`).
    pub fn is_dirty(&self) -> (r: bool)
        ensures
            H::obeys_eq_spec() ==> r == self.spec_is_dirty(),
    {
        self.current != self.baseline
    }

    /// Whether the live value differs from `other` (`current != other`).
    pub fn diff_against(&self, other: &H) -> (r: bool)
        ensures
            H::obeys_eq_spec() ==> r == !self.spec_current().eq_spec(other),
    {
        &self.current != other
    }
}

/// A freshly created state is not dirty.
pub proof fn lemma_new_state_is_clean<H: Clone + PartialEq>(holder: H, s: FormState<H>)
    requires
        clone_preserves_eq::<H>(),
        s.spec_current() == holder,
        cloned(holder, s.spec_baseline()),
    ensures
        !s.spec_is_dirty(),
{
}

/// Resetting to the baseline leaves the state clean and the baseline as it
/// was.
pub proof fn lemma_reset_clears_dirty<H: Clone + PartialEq>(before: FormState<H>, after: FormState<H>)
    requires
        clone_preserves_eq::<H>(),
        cloned(before.spec_baseline(), after.spec_current()),
        after.spec_baseline() == before.spec_baseline(),
    ensures
        !after.spec_is_dirty(),
        after.spec_baseline() == before.spec_baseline(),
{
}

/// Syncing the baseline leaves the state clean and the live value as it was.
pub proof fn lemma_sync_clears_dirty<H: Clone + PartialEq>(before: FormState<H>, after: FormState<H>)
    requires
        clone_preserves_eq::<H>(),
        cloned(before.spec_current(), after.spec_baseline()),
        after.spec_current() == before.spec_current(),
    ensures
        !after.spec_is_dirty(),
        after.spec_current() == before.spec_current(),
{
}

/// After replacing the live value with `holder`, the state is dirty exactly
/// when `holder` differs from the unchanged baseline.
pub proof fn lemma_replace_dirty_iff_differs<H: PartialEq>(
    before: FormState<H>,
    after: FormState<H>,
    holder: H,
)
    requires
        after.spec_current() == holder,
        after.spec_baseline() == before.spec_baseline(),
    ensures
        after.spec_is_dirty() == !holder.eq_spec(&before.spec_baseline()),
{
}

/// Diffing the live value against the baseline gives exactly the dirty
/// flag: `diff_against(baseline())` and `is_dirty()` are stated by the same
/// comparison.
pub proof fn lemma_diff_against_baseline_is_dirty<H: PartialEq>(s: FormState<H>)
    ensures
        !s.spec_current().eq_spec(&s.spec_baseline()) == s.spec_is_dirty(),
{
}

} // verus!
