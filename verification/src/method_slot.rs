//! Method pointer slot primitives.
//!
//! The slot is the single pointer field of an IL2CPP `MethodInfo` that the
//! runtime replaces to install a hook. This module owns the compare-and-swap,
//! readback and ownership semantics; it knows nothing about function ABIs,
//! gates or callbacks.
//!
//! The physical access is abstracted behind [`SlotMemory`]. What a slot
//! answers is not up to this library: other parties write the same word. So
//! an access keeps a log of what it was asked and what it answered. Contracts
//! say which accesses are added to that log and what follows from each answer,
//! and the laws say what that comes to on a word that nobody else writes.

use std::sync::atomic::{AtomicUsize, Ordering};

use vstd::prelude::*;

use crate::error::HookError;
use crate::text::same_text;

verus! {

/// Install mechanism of one hook target.
///
/// Both mechanisms expose the same compare-and-swap, readback and ownership
/// semantics through [`SlotMemory`]; the difference is the physical site.
#[derive(Debug, Clone, Copy, PartialEq, Eq, Structural)]
pub enum HookMechanism {
    /// Swaps the `MethodInfo.methodPointer` word; intercepts callers that
    /// dispatch through the slot.
    MethodPointerSlot,
    /// Rewrites the function entry; intercepts every caller.
    EntryPatch,
}

/// Declared identity and complete managed signature of a hook target.
#[derive(Debug, Clone, PartialEq, Eq)]
pub struct TargetId {
    pub assembly: &'static str,
    pub namespace: &'static str,
    pub class: &'static str,
    pub method: &'static str,
    pub param_count: u32,
    /// Whether the managed method is static. Instance methods carry the
    /// implicit `this` argument in their native ABI.
    pub is_static: bool,
    /// Canonical C#-style return type (`void`, `int`, `string`, ...).
    pub return_type: &'static str,
    /// Canonical C#-style explicit parameter types, in declaration order.
    pub parameter_types: &'static [&'static str],
}

/// A method resolved through the IL2CPP backend: its runtime identity, the
/// `MethodInfo` address and the address of its `methodPointer` slot.
#[derive(Debug, Clone, PartialEq, Eq)]
pub struct MethodRef {
    pub assembly: String,
    pub namespace: String,
    pub class: String,
    pub method: String,
    pub param_count: u32,
    pub is_static: bool,
    pub return_type: String,
    pub parameter_types: Vec<String>,
    pub is_generic: bool,
    pub is_inflated: bool,
    pub method_info: usize,
    pub method_pointer_slot: usize,
}

/// What a target id stands for.
pub struct TargetView {
    pub assembly: Seq<char>,
    pub namespace: Seq<char>,
    pub class: Seq<char>,
    pub method: Seq<char>,
    pub param_count: u32,
    pub is_static: bool,
    pub return_type: Seq<char>,
    pub parameter_types: Seq<Seq<char>>,
}

impl View for TargetId {
    type V = TargetView;

    open spec fn view(&self) -> TargetView {
        TargetView {
            assembly: self.assembly@,
            namespace: self.namespace@,
            class: self.class@,
            method: self.method@,
            param_count: self.param_count,
            is_static: self.is_static,
            return_type: self.return_type@,
            parameter_types: self.parameter_types@.map_values(|name: &'static str| name@),
        }
    }
}

/// The resolved method is exactly the declared target: same names, same
/// signature, and neither generic nor inflated.
pub open spec fn is_target(target: TargetView, actual: MethodRef) -> bool {
    &&& target.assembly == actual.assembly@
    &&& target.namespace == actual.namespace@
    &&& target.class == actual.class@
    &&& target.method == actual.method@
    &&& target.param_count == actual.param_count
    &&& target.parameter_types.len() == target.param_count
    &&& target.is_static == actual.is_static
    &&& target.return_type == actual.return_type@
    &&& target.parameter_types == actual.parameter_types@.map_values(|name: String| name@)
    &&& !actual.is_generic
    &&& !actual.is_inflated
}

fn parameters_match(declared: &[&'static str], actual: &Vec<String>) -> (r: bool)
    ensures
        r == (declared@.map_values(|name: &'static str| name@) == actual@.map_values(
            |name: String| name@,
        )),
{
    let ghost left = declared@.map_values(|name: &'static str| name@);
    let ghost right = actual@.map_values(|name: String| name@);
    if declared.len() != actual.len() {
        assert(left.len() != right.len());
        return false;
    }
    let mut index: usize = 0;
    while index < declared.len()
        invariant
            index <= declared.len(),
            declared.len() == actual.len(),
            left == declared@.map_values(|name: &'static str| name@),
            right == actual@.map_values(|name: String| name@),
            forall|i: int| 0 <= i < index ==> #[trigger] left[i] == right[i],
        decreases declared.len() - index,
    {
        assert(left[index as int] == declared@[index as int]@);
        assert(right[index as int] == actual@[index as int]@);
        if !same_text(declared[index], actual[index].as_str()) {
            return false;
        }
        index = index + 1;
    }
    assert(left =~= right);
    true
}

impl TargetId {
    #[must_use]
    pub fn matches(&self, actual: &MethodRef) -> (r: bool)
        ensures
            r == is_target(self@, *actual),
    {
        same_text(self.assembly, actual.assembly.as_str()) && same_text(
            self.namespace,
            actual.namespace.as_str(),
        ) && same_text(self.class, actual.class.as_str()) && same_text(
            self.method,
            actual.method.as_str(),
        ) && self.param_count == actual.param_count && self.parameter_types.len() as u64
            == self.param_count as u64 && self.is_static == actual.is_static && same_text(
            self.return_type,
            actual.return_type.as_str(),
        ) && parameters_match(self.parameter_types, &actual.parameter_types) && !actual.is_generic
            && !actual.is_inflated
    }
}

impl MethodRef {
    /// `true` when the resolved method matches the declared target exactly.
    #[must_use]
    pub fn matches_target(&self, target: &TargetId) -> (r: bool)
        ensures
            r == is_target(target@, *self),
    {
        target.matches(self)
    }
}

/// One access to a slot and what it answered.
pub enum SlotEvent {
    Read(Option<usize>),
    Exchange { expected: usize, new: usize, reply: Result<(), usize> },
}

/// Physical access to one method pointer slot.
///
/// Implementations must perform a real compare-and-swap on the slot word:
/// `Ok(())` means the slot held `expected` and now holds `new`; `Err(actual)`
/// reports the value observed instead of `expected` without writing.
pub trait SlotMemory: Sized {
    /// What was asked through this access and what it answered, in order. An
    /// implementation that is not verified leaves it unsaid.
    closed spec fn log(&self) -> Seq<SlotEvent> {
        vstd::pervasive::arbitrary()
    }

    /// The logs that may end in an exchange. Whoever exchanges the word has to
    /// show that the log with this exchange is among them, so a caller knows of
    /// an access that was given up, too, which exchanges it saw at most.
    closed spec fn permitted(&self) -> Set<Seq<SlotEvent>> {
        vstd::pervasive::arbitrary()
    }

    /// Current slot value; `None` if the slot cannot be read.
    fn read(&mut self) -> (word: Option<usize>)
        ensures
            final(self).log() == old(self).log() + seq![SlotEvent::Read(word)],
            final(self).permitted() == old(self).permitted(),
    ;

    fn compare_exchange(&mut self, expected: usize, new: usize) -> (reply: Result<(), usize>)
        requires
            may_exchange(old(self).permitted(), old(self).log(), expected, new),
        ensures
            final(self).log() == old(self).log() + seq![exchange(expected, new, reply)],
            final(self).permitted() == old(self).permitted(),
    ;
}

/// `after` is the access `before` after `events` and nothing else.
pub open spec fn accessed<M: SlotMemory>(before: M, after: M, events: Seq<SlotEvent>) -> bool {
    &&& after.log() == before.log() + events
    &&& after.permitted() == before.permitted()
}

/// After the accesses `log`, the word may be exchanged from `expected` to
/// `new`, whatever the answer.
pub open spec fn may_exchange(
    permitted: Set<Seq<SlotEvent>>,
    log: Seq<SlotEvent>,
    expected: usize,
    new: usize,
) -> bool {
    forall|reply: Result<(), usize>|
        permitted.contains(log + seq![#[trigger] exchange(expected, new, reply)])
}

/// An exchange and its answer.
pub open spec fn exchange(expected: usize, new: usize, reply: Result<(), usize>) -> SlotEvent {
    SlotEvent::Exchange { expected, new, reply }
}

/// [`SlotMemory`] over a real (naturally aligned, pointer-sized) memory word:
/// the `methodPointer` field of a live `MethodInfo`.
pub struct RawSlotMemory {
    slot: &'static AtomicUsize,
    accesses: Ghost<Seq<SlotEvent>>,
}

/// `word` is a possible answer to an acquiring load of `slot`. What a word of
/// live metadata holds rests on every thread of the process.
pub open spec fn acquired(slot: &AtomicUsize, word: usize) -> bool {
    call_ensures(AtomicUsize::load, (slot, Ordering::Acquire), word)
}

/// `seen` is a possible answer to one acquiring and releasing compare-and-swap
/// of `slot` from `expected` to `new`.
pub open spec fn exchanged(
    slot: &AtomicUsize,
    expected: usize,
    new: usize,
    seen: Result<usize, usize>,
) -> bool {
    call_ensures(
        AtomicUsize::compare_exchange,
        (slot, expected, new, Ordering::AcqRel, Ordering::Acquire),
        seen,
    )
}

impl RawSlotMemory {
    /// The word that is accessed.
    pub closed spec fn word(&self) -> &'static AtomicUsize {
        self.slot
    }

    pub fn from_word(slot: &'static AtomicUsize) -> (r: Self)
        ensures
            r.word() == slot,
            r.log() == Seq::<SlotEvent>::empty(),
    {
        RawSlotMemory { slot, accesses: Ghost(Seq::empty()) }
    }

    /// Whether `addr` can be the address of a slot word of `align` bytes: not
    /// null and naturally aligned.
    #[must_use]
    pub fn is_slot_address(addr: usize, align: usize) -> (r: bool)
        requires
            align > 0,
        ensures
            r == (addr != 0 && addr as int % align as int == 0),
    {
        addr != 0 && addr % align == 0
    }
}

impl SlotMemory for RawSlotMemory {
    closed spec fn log(&self) -> Seq<SlotEvent> {
        self.accesses@
    }

    open spec fn permitted(&self) -> Set<Seq<SlotEvent>> {
        Set::new(|log: Seq<SlotEvent>| true)
    }

    fn read(&mut self) -> (word: Option<usize>)
        ensures
            final(self).word() == old(self).word(),
            word is Some,
            acquired(old(self).word(), word->Some_0),
    {
        let word: Option<usize> = Some(self.slot.load(Ordering::Acquire));
        proof {
            self.accesses@ = self.accesses@ + seq![SlotEvent::Read(word)];
        }
        word
    }

    fn compare_exchange(&mut self, expected: usize, new: usize) -> (reply: Result<(), usize>)
        ensures
            final(self).word() == old(self).word(),
            match reply {
                Ok(_) => exists|held: usize| #[trigger]
                    exchanged(old(self).word(), expected, new, Ok(held)),
                Err(actual) => exchanged(old(self).word(), expected, new, Err(actual)),
            },
    {
        let seen: Result<usize, usize> = self.slot.compare_exchange(
            expected,
            new,
            Ordering::AcqRel,
            Ordering::Acquire,
        );
        let reply: Result<(), usize> = match seen {
            Ok(held) => {
                assert(exchanged(self.word(), expected, new, Ok::<usize, usize>(held)));
                Ok(())
            },
            Err(actual) => Err(actual),
        };
        proof {
            self.accesses@ = self.accesses@ + seq![SlotEvent::Exchange { expected, new, reply }];
        }
        reply
    }
}

/// What binding makes of the word it read: the non-null word is the original.
pub open spec fn bound_original(word: Option<usize>) -> Option<usize> {
    if word is Some && word->Some_0 != 0 {
        word
    } else {
        None
    }
}

/// The accesses of one compare-and-swap from `expected` to `new` with a
/// readback, in order, and the result they lead to. It is `refused` when the
/// word was not swapped, and then nothing more is asked; `InstallationFailed`
/// when the readback does not show `new`.
pub open spec fn swap_events(
    events: Seq<SlotEvent>,
    expected: usize,
    new: usize,
    refused: HookError,
    result: Result<(), HookError>,
) -> bool {
    &&& 1 <= events.len() <= 2
    &&& events[0] matches SlotEvent::Exchange { expected: e, new: n, reply }
    &&& e == expected && n == new
    &&& match reply {
        Err(_) => events.len() == 1 && result == Err::<(), HookError>(refused),
        Ok(_) => {
            &&& events.len() == 2
            &&& events[1] matches SlotEvent::Read(word)
            &&& result == if word == Some(new) {
                Ok::<(), HookError>(())
            } else {
                Err::<(), HookError>(HookError::InstallationFailed)
            }
        },
    }
}

/// `after` is the access `before` after one compare-and-swap with a readback,
/// which led to `result`.
pub open spec fn swapped<M: SlotMemory>(
    before: M,
    after: M,
    expected: usize,
    new: usize,
    refused: HookError,
    result: Result<(), HookError>,
) -> bool {
    exists|events: Seq<SlotEvent>|
        {
            &&& #[trigger] swap_events(events, expected, new, refused, result)
            &&& accessed(before, after, events)
        }
}

/// `slot` is what binding `memory` came to: one read, whose word is the
/// original. A word that is missing or null is malformed.
pub open spec fn binding<M: SlotMemory>(
    memory: M,
    after: M,
    word: Option<usize>,
    slot: Result<MethodPointerSlot<M>, HookError>,
) -> bool {
    &&& accessed(memory, after, seq![SlotEvent::Read(word)])
    &&& match bound_original(word) {
        Some(original) => slot is Ok && slot->Ok_0.source() == after && slot->Ok_0.bound()
            == original,
        None => slot is Err && slot->Err_0 == HookError::SlotMalformed,
    }
}

/// Bound, ownership-aware wrapper around one method pointer slot.
///
/// The slot is the final source of truth for ownership.
pub struct MethodPointerSlot<M: SlotMemory> {
    memory: M,
    original: usize,
}

impl<M: SlotMemory> MethodPointerSlot<M> {
    /// The pointer read at bind time.
    pub closed spec fn bound(&self) -> usize {
        self.original
    }

    /// The memory that was bound.
    pub closed spec fn source(&self) -> M {
        self.memory
    }

    /// The word may be exchanged from `expected` to `new` now.
    pub open spec fn may_swap(&self, expected: usize, new: usize) -> bool {
        may_exchange(self.source().permitted(), self.source().log(), expected, new)
    }

    /// Binds to a slot: reads the non-null current pointer (the original). No
    /// write happens here.
    pub fn bind(memory: M) -> (r: Result<Self, HookError>)
        ensures
            exists|after: M, word: Option<usize>| #[trigger] binding(memory, after, word, r),
    {
        let ghost before = memory;
        let mut memory = memory;
        let word: Option<usize> = memory.read();
        let ghost after = memory;
        let r = match original_of(word) {
            Ok(original) => Ok(MethodPointerSlot { memory, original }),
            Err(error) => Err(error),
        };
        assert(binding(before, after, word, r));
        r
    }

    /// One compare-and-swap with a readback.
    fn swap(&mut self, expected: usize, new: usize, refused: HookError) -> (r: Result<
        (),
        HookError,
    >)
        requires
            old(self).may_swap(expected, new),
        ensures
            final(self).bound() == old(self).bound(),
            swapped(old(self).source(), final(self).source(), expected, new, refused, r),
    {
        let ghost before = self.memory;
        let reply: Result<(), usize> = self.memory.compare_exchange(expected, new);
        let ghost asked = seq![SlotEvent::Exchange { expected, new, reply }];
        match reply {
            Err(_) => {
                let r: Result<(), HookError> = Err(refused);
                assert(swap_events(asked, expected, new, refused, r));
                r
            },
            Ok(()) => {
                let word: Option<usize> = self.memory.read();
                let ghost events = asked + seq![SlotEvent::Read(word)];
                let r = read_back(word, new);
                assert(swap_events(events, expected, new, refused, r));
                assert(self.memory.log() =~= before.log() + events);
                r
            },
        }
    }

    /// The original (pre-install) pointer read at bind time.
    #[must_use]
    pub fn original(&self) -> (r: usize)
        ensures
            r == self.bound(),
    {
        self.original
    }

    /// Swaps `original -> replacement`, then reads back and requires the
    /// replacement to be visible.
    ///
    /// * `Err(SlotConflict)`: the slot no longer held the original; nothing
    ///   was written.
    /// * `Err(InstallationFailed)`: the swap succeeded but the readback did
    ///   not confirm the replacement. The caller must immediately attempt
    ///   one ownership-aware rollback via [`MethodPointerSlot::restore`].
    pub fn install(&mut self, replacement: usize) -> (r: Result<(), HookError>)
        requires
            old(self).may_swap(old(self).bound(), replacement),
        ensures
            final(self).bound() == old(self).bound(),
            swapped(
                old(self).source(),
                final(self).source(),
                old(self).bound(),
                replacement,
                HookError::SlotConflict,
                r,
            ),
    {
        self.swap(self.original, replacement, HookError::SlotConflict)
    }

    /// Swaps `replacement -> original`, then reads back and requires the
    /// original to be visible. If the slot no longer holds the replacement,
    /// nothing is written and drift is reported.
    pub fn restore(&mut self, replacement: usize) -> (r: Result<(), HookError>)
        requires
            old(self).may_swap(replacement, old(self).bound()),
        ensures
            final(self).bound() == old(self).bound(),
            swapped(
                old(self).source(),
                final(self).source(),
                replacement,
                old(self).bound(),
                HookError::OwnershipDrift,
                r,
            ),
    {
        self.swap(replacement, self.original, HookError::OwnershipDrift)
    }

    /// Current slot value, for diagnostics and quiescence checks.
    #[must_use]
    pub fn current(&mut self) -> (r: Option<usize>)
        ensures
            final(self).bound() == old(self).bound(),
            accessed(old(self).source(), final(self).source(), seq![SlotEvent::Read(r)]),
    {
        self.memory.read()
    }
}

/// The original pointer that a read word binds to.
pub fn original_of(word: Option<usize>) -> (r: Result<usize, HookError>)
    ensures
        match bound_original(word) {
            Some(original) => r == Ok::<usize, HookError>(original),
            None => r == Err::<usize, HookError>(HookError::SlotMalformed),
        },
{
    match word {
        None => Err(HookError::SlotMalformed),
        Some(current) => if current == 0 {
            Err(HookError::SlotMalformed)
        } else {
            Ok(current)
        },
    }
}

/// Whether a readback shows the word that was swapped in.
pub fn read_back(word: Option<usize>, expected: usize) -> (r: Result<(), HookError>)
    ensures
        r == if word == Some(expected) {
            Ok::<(), HookError>(())
        } else {
            Err::<(), HookError>(HookError::InstallationFailed)
        },
{
    match word {
        Some(actual) => if actual == expected {
            Ok(())
        } else {
            Err(HookError::InstallationFailed)
        },
        None => Err(HookError::InstallationFailed),
    }
}

// ---------------------------------------------------------------------------
// Laws
// ---------------------------------------------------------------------------

/// The word after the accesses of `log`, if it was `initial` after the first
/// `from` of them.
pub open spec fn word_after(log: Seq<SlotEvent>, from: nat, initial: usize) -> usize
    decreases log.len(),
{
    if log.len() <= from {
        initial
    } else {
        match log.last() {
            SlotEvent::Exchange { new, reply: Ok(_), .. } => new,
            _ => word_after(log.drop_last(), from, initial),
        }
    }
}

/// From its first `from` accesses on, `log` is what a readable word answers
/// that was `initial` then and that nobody else writes.
pub open spec fn exclusive(log: Seq<SlotEvent>, from: nat, initial: usize) -> bool
    decreases log.len(),
{
    log.len() > from ==> {
        let word = word_after(log.drop_last(), from, initial);
        &&& exclusive(log.drop_last(), from, initial)
        &&& match log.last() {
            SlotEvent::Read(seen) => seen == Some(word),
            SlotEvent::Exchange { expected, reply, .. } => if word == expected {
                reply is Ok
            } else {
                reply == Err::<(), usize>(word)
            },
        }
    }
}

/// On a word that nobody else writes, a swap succeeds exactly when the word
/// is the expected one. Then the word becomes the new one; otherwise it is
/// refused and the word stays as it was.
pub proof fn swap_on_exclusive_word<M: SlotMemory>(
    before: M,
    after: M,
    from: nat,
    initial: usize,
    expected: usize,
    new: usize,
    refused: HookError,
    result: Result<(), HookError>,
)
    requires
        swapped(before, after, expected, new, refused, result),
        from <= before.log().len(),
        exclusive(after.log(), from, initial),
    ensures
        result == if word_after(before.log(), from, initial) == expected {
            Ok::<(), HookError>(())
        } else {
            Err::<(), HookError>(refused)
        },
        word_after(after.log(), from, initial) == if word_after(before.log(), from, initial) == expected {
            new
        } else {
            word_after(before.log(), from, initial)
        },
        exclusive(before.log(), from, initial),
{
    reveal_with_fuel(word_after, 3);
    reveal_with_fuel(exclusive, 3);
    let events = choose|events: Seq<SlotEvent>|
        {
            &&& #[trigger] swap_events(events, expected, new, refused, result)
            &&& accessed(before, after, events)
        };
    if events.len() == 1 {
        assert(after.log().drop_last() =~= before.log());
    } else {
        assert(after.log().drop_last().drop_last() =~= before.log());
    }
}

/// Whoever else writes the slot: a refused swap has not written it, and a
/// confirmed one has swapped the expected word out and seen the new one. Each
/// exchanges the word once.
pub proof fn refused_swap_does_not_write<M: SlotMemory>(
    before: M,
    after: M,
    from: nat,
    initial: usize,
    expected: usize,
    new: usize,
    refused: HookError,
    result: Result<(), HookError>,
)
    requires
        swapped(before, after, expected, new, refused, result),
        from <= before.log().len(),
        refused != HookError::InstallationFailed,
    ensures
        result == Err::<(), HookError>(refused) ==> word_after(after.log(), from, initial) == word_after(
            before.log(),
            from,
            initial,
        ),
        result is Ok ==> word_after(after.log(), from, initial) == new && after.log().last()
            == SlotEvent::Read(Some(new)),
        exchanges(after.log()) == exchanges(before.log()) + 1,
{
    reveal_with_fuel(word_after, 3);
    reveal_with_fuel(exchanges, 3);
    let events = choose|events: Seq<SlotEvent>|
        {
            &&& #[trigger] swap_events(events, expected, new, refused, result)
            &&& accessed(before, after, events)
        };
    if events.len() == 1 {
        assert(after.log().drop_last() =~= before.log());
    } else {
        assert(after.log().drop_last().drop_last() =~= before.log());
    }
}

/// How often the word was exchanged, or was to be.
pub open spec fn exchanges(log: Seq<SlotEvent>) -> nat
    decreases log.len(),
{
    if log.len() == 0 {
        0
    } else {
        exchanges(log.drop_last()) + if log.last() is Exchange {
            1nat
        } else {
            0nat
        }
    }
}

/// Binding only reads: it exchanges nothing and leaves the word as it was.
pub proof fn binding_does_not_write<M: SlotMemory>(
    memory: M,
    after: M,
    word: Option<usize>,
    slot: Result<MethodPointerSlot<M>, HookError>,
    from: nat,
    initial: usize,
)
    requires
        binding(memory, after, word, slot),
        from <= memory.log().len(),
    ensures
        exchanges(after.log()) == exchanges(memory.log()),
        word_after(after.log(), from, initial) == word_after(memory.log(), from, initial),
{
    reveal_with_fuel(word_after, 2);
    reveal_with_fuel(exchanges, 2);
    assert(after.log().drop_last() =~= memory.log());
}

/// Installing on a word that nobody else writes shows the replacement in the
/// slot, and restoring it gives the original back; restoring once more reports
/// drift and changes nothing.
pub proof fn install_restore_round_trip<M: SlotMemory>(
    bound: M,
    installed: M,
    seen: M,
    restored: M,
    again: M,
    last: M,
    from: nat,
    original: usize,
    replacement: usize,
    install: Result<(), HookError>,
    current: Option<usize>,
    restore: Result<(), HookError>,
    restore_again: Result<(), HookError>,
    current_again: Option<usize>,
)
    requires
        from <= bound.log().len(),
        word_after(bound.log(), from, original) == original,
        swapped(bound, installed, original, replacement, HookError::SlotConflict, install),
        accessed(installed, seen, seq![SlotEvent::Read(current)]),
        swapped(seen, restored, replacement, original, HookError::OwnershipDrift, restore),
        swapped(restored, again, replacement, original, HookError::OwnershipDrift, restore_again),
        accessed(again, last, seq![SlotEvent::Read(current_again)]),
        exclusive(last.log(), from, original),
        original != replacement,
    ensures
        install is Ok,
        current == Some(replacement),
        restore is Ok,
        word_after(restored.log(), from, original) == original,
        restore_again == Err::<(), HookError>(HookError::OwnershipDrift),
        current_again == Some(original),
{
    reveal_with_fuel(word_after, 2);
    reveal_with_fuel(exclusive, 2);
    assert(last.log().drop_last() =~= again.log());
    swap_on_exclusive_word(
        restored,
        again,
        from,
        original,
        replacement,
        original,
        HookError::OwnershipDrift,
        restore_again,
    );
    swap_on_exclusive_word(
        seen,
        restored,
        from,
        original,
        replacement,
        original,
        HookError::OwnershipDrift,
        restore,
    );
    assert(seen.log().drop_last() =~= installed.log());
    swap_on_exclusive_word(
        bound,
        installed,
        from,
        original,
        original,
        replacement,
        HookError::SlotConflict,
        install,
    );
}

/// On a word that somebody else changed to `foreign` since it was bound, and
/// that nobody writes from then on, installing reports the conflict and leaves
/// the other value there. So does restoring a replacement that is not there.
pub proof fn conflict_leaves_the_foreign_word<M: SlotMemory>(
    before: M,
    after: M,
    last: M,
    foreign: usize,
    expected: usize,
    new: usize,
    refused: HookError,
    result: Result<(), HookError>,
    current: Option<usize>,
)
    requires
        foreign != expected,
        swapped(before, after, expected, new, refused, result),
        accessed(after, last, seq![SlotEvent::Read(current)]),
        exclusive(last.log(), before.log().len(), foreign),
    ensures
        result == Err::<(), HookError>(refused),
        current == Some(foreign),
{
    let from = before.log().len();
    assert(last.log().drop_last() =~= after.log());
    swap_on_exclusive_word(before, after, from, foreign, expected, new, refused, result);
}

} // verus!
