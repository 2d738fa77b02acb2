//! The three-phase original-call guard.
//!
//! One shared implementation backs both the scheduler replacement and hook
//! target wrappers: the original may only be called once, and recovery paths
//! branch on the recorded phase. The guard records phases; it never calls
//! anything itself.

use vstd::prelude::*;

verus! {

/// Phase of the exactly-once original call.
#[derive(Debug, Clone, Copy, PartialEq, Eq, Structural)]
pub enum OriginalPhase {
    /// The original has not been called yet.
    BeforeOriginal,
    /// The original call is in progress; on unwind its effect must be
    /// treated as unknown (never retried).
    CallingOriginal,
    /// The original returned normally.
    AfterOriginal,
}

/// Stack-local guard tracking one original-call opportunity.
#[derive(Debug)]
pub struct OriginalGuard {
    phase: OriginalPhase,
}

impl View for OriginalGuard {
    type V = OriginalPhase;

    closed spec fn view(&self) -> OriginalPhase {
        self.phase
    }
}

impl OriginalGuard {
    #[must_use]
    pub fn new() -> (r: Self)
        ensures
            r@ is BeforeOriginal,
    {
        OriginalGuard { phase: OriginalPhase::BeforeOriginal }
    }

    /// Current phase.
    #[must_use]
    pub fn phase(&self) -> (r: OriginalPhase)
        ensures
            r == self@,
    {
        self.phase
    }

    /// `true` when the original still needs to be called.
    #[must_use]
    pub fn needs_original(&self) -> (r: bool)
        ensures
            r == (self@ is BeforeOriginal),
    {
        self.phase == OriginalPhase::BeforeOriginal
    }

    /// Transition `BeforeOriginal -> CallingOriginal`. Returns `false` if the
    /// original was already called or is currently being called, rejecting
    /// duplicate invocations.
    pub fn begin_call(&mut self) -> (r: bool)
        ensures
            r == (old(self)@ is BeforeOriginal),
            final(self)@ == begun(old(self)@),
    {
        match self.phase {
            OriginalPhase::BeforeOriginal => {
                self.phase = OriginalPhase::CallingOriginal;
                true
            },
            _ => false,
        }
    }

    /// Transition `CallingOriginal -> AfterOriginal`.
    pub fn end_call(&mut self)
        ensures
            final(self)@ == ended(old(self)@),
    {
        if self.phase == OriginalPhase::CallingOriginal {
            self.phase = OriginalPhase::AfterOriginal;
        }
    }
}

impl Default for OriginalGuard {
    fn default() -> (r: Self)
        ensures
            r@ is BeforeOriginal,
    {
        OriginalGuard::new()
    }
}

/// Phase after an attempt to begin the call.
pub open spec fn begun(phase: OriginalPhase) -> OriginalPhase {
    if phase is BeforeOriginal {
        OriginalPhase::CallingOriginal
    } else {
        phase
    }
}

/// Phase after the end of a call was recorded.
pub open spec fn ended(phase: OriginalPhase) -> OriginalPhase {
    if phase is CallingOriginal {
        OriginalPhase::AfterOriginal
    } else {
        phase
    }
}

/// Phase after a sequence of transitions; `true` begins, `false` ends a call.
pub open spec fn phase_after(phase: OriginalPhase, begins: Seq<bool>) -> OriginalPhase
    decreases begins.len(),
{
    if begins.len() == 0 {
        phase
    } else if begins.last() {
        begun(phase_after(phase, begins.drop_last()))
    } else {
        ended(phase_after(phase, begins.drop_last()))
    }
}

/// Once a call was begun, no later attempt is accepted: the original is
/// called at most once per guard.
pub proof fn original_called_at_most_once(phase: OriginalPhase, begins: Seq<bool>)
    requires
        phase !is BeforeOriginal,
    ensures
        phase_after(phase, begins) !is BeforeOriginal,
    decreases begins.len(),
{
    if begins.len() > 0 {
        original_called_at_most_once(phase, begins.drop_last());
    }
}

} // verus!
