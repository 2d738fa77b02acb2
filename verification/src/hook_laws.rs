//! What holds of gates, slots and hook sites.

use std::sync::Arc;

use vstd::prelude::*;

use crate::backend::{MethodResolver, ResolverEvent};
use crate::error::{HookError, PluginError, RestoreError};
use crate::gate::{GateBoard, GateReader, PluginGate, RuntimeGate};
use crate::hook::{
    install_or_roll_back, settle, Callback, HandlerEnd, HookBuilder, HookSite, HookTarget,
    InstalledHook, Published, Settlement, SiteInner, Unpublished,
};
use crate::method_slot::{
    original_of, read_back, MethodPointerSlot, MethodRef, RawSlotMemory, SlotEvent, SlotMemory,
    TargetId,
};
use crate::original::{OriginalGuard, OriginalPhase};

verus! {

// ---------------------------------------------------------------------------
// Gates
// ---------------------------------------------------------------------------

/// A gate has its own place on the board, starts closed, and disturbs no other.
pub proof fn new_gate_is_closed(board: &mut GateBoard, r: RuntimeGate, other: GateReader)
    requires
        call_ensures(RuntimeGate::new, (board,), r),
        other.stands_on(*old(board)),
    ensures
        r.handle().stands_on(*final(board)),
        !r.handle().stands_on(*old(board)),
        r.handle().state(*final(board)) is Closed,
        other.stands_on(*final(board)),
        other.state(*final(board)) == other.state(*old(board)),
{
}

/// A gate opens only from closed, and says so; any other state stays as it is.
/// Closing is for good. Neither touches another gate.
pub proof fn gates_open_once_and_close_for_good(
    gate: &RuntimeGate,
    opened: &mut GateBoard,
    r: bool,
    closed: &mut GateBoard,
    other: GateReader,
)
    requires
        call_ensures(RuntimeGate::open, (gate, opened), r),
        call_ensures(RuntimeGate::close, (gate, closed), ()),
        gate.handle().stands_on(*old(opened)),
        gate.handle().stands_on(*old(closed)),
        other.stands_on(*old(opened)),
        other.stands_on(*old(closed)),
    ensures
        r <==> gate.handle().state(*old(opened)) is Closed,
        r ==> gate.handle().state(*final(opened)) is Open,
        !r ==> gate.handle().state(*final(opened)) == gate.handle().state(*old(opened)),
        gate.handle().state(*final(closed)) is FailedClosed,
        other.place() != gate.handle().place() ==> other.state(*final(opened)) == other.state(
            *old(opened),
        ) && other.state(*final(closed)) == other.state(*old(closed)),
        final(opened)@.len() == old(opened)@.len(),
        final(closed)@.len() == old(closed)@.len(),
{
}

/// A plugin gate opens and closes as a runtime gate does.
pub proof fn plugin_gate_is_a_gate(
    gate: &PluginGate,
    opened: &mut GateBoard,
    closed: &mut GateBoard,
    is_open: bool,
    other: GateReader,
)
    requires
        other.stands_on(*old(opened)),
        other.stands_on(*old(closed)),
        call_ensures(PluginGate::open, (gate, opened), ()),
        call_ensures(PluginGate::close, (gate, closed), ()),
        call_ensures(PluginGate::is_open, (gate, &*final(opened)), is_open),
        gate.handle().stands_on(*old(opened)),
        gate.handle().stands_on(*old(closed)),
    ensures
        is_open <==> !(gate.handle().state(*old(opened)) is FailedClosed),
        gate.handle().state(*final(closed)) is FailedClosed,
        other.place() != gate.handle().place() ==> other.state(*final(opened)) == other.state(
            *old(opened),
        ) && other.state(*final(closed)) == other.state(*old(closed)),
{
}

/// What a reader says is the state that it reads.
pub proof fn readers_see_the_gate(
    reader: &GateReader,
    board: &GateBoard,
    open: bool,
    failed: bool,
)
    requires
        call_ensures(GateReader::is_open, (reader, board), open),
        call_ensures(GateReader::has_failed, (reader, board), failed),
    ensures
        open <==> reader.state(*board) is Open,
        failed <==> reader.state(*board) is FailedClosed,
        !(open && failed),
{
}

// ---------------------------------------------------------------------------
// Targets and slots
// ---------------------------------------------------------------------------

/// A method is a target exactly where every part of its identity is that of
/// the target: names, staticness, return type, and each parameter type in its
/// place; a generic or inflated method never is.
pub proof fn target_is_matched_in_every_part(
    target: &TargetId,
    method: &MethodRef,
    r: bool,
    other_way: bool,
)
    requires
        call_ensures(TargetId::matches, (target, method), r),
        call_ensures(MethodRef::matches_target, (method, target), other_way),
    ensures
        r == other_way,
        r <==> {
            &&& method.assembly@ == target.assembly@
            &&& method.namespace@ == target.namespace@
            &&& method.class@ == target.class@
            &&& method.method@ == target.method@
            &&& method.param_count == target.param_count
            &&& method.is_static == target.is_static
            &&& method.return_type@ == target.return_type@
            &&& target.parameter_types@.len() == target.param_count
            &&& method.parameter_types@.len() == target.param_count
            &&& forall|i: int|
                0 <= i < target.param_count ==> (#[trigger] method.parameter_types@[i])@
                    == target.parameter_types@[i]@
            &&& !method.is_generic
            &&& !method.is_inflated
        },
{
    let declared = target@.parameter_types;
    let actual = method.parameter_types@.map_values(|name: String| name@);
    assert(declared.len() == target.parameter_types@.len());
    assert(actual.len() == method.parameter_types@.len());
    if r {
        assert forall|i: int| 0 <= i < target.param_count implies (
        #[trigger] method.parameter_types@[i])@ == target.parameter_types@[i]@ by {
            assert(actual[i] == declared[i]);
        }
    } else if declared.len() == actual.len() && (forall|i: int|
        0 <= i < declared.len() ==> (#[trigger] method.parameter_types@[i])@
            == target.parameter_types@[i]@) {
        assert(declared =~= actual);
    }
}

/// Only a word that could be read and is not null is an original.
pub proof fn original_is_not_null(word: Option<usize>, r: Result<usize, HookError>)
    requires
        call_ensures(original_of, (word,), r),
    ensures
        r matches Ok(original) ==> word == Some(original) && original != 0,
        r matches Err(error) ==> error == HookError::SlotMalformed && (word is None || word == Some(
            0usize,
        )),
{
}

/// A swap is confirmed exactly where the readback shows the word.
pub proof fn readback_confirms_the_word(
    word: Option<usize>,
    expected: usize,
    r: Result<(), HookError>,
)
    requires
        call_ensures(read_back, (word, expected), r),
    ensures
        r is Ok <==> word == Some(expected),
        r matches Err(error) ==> error == HookError::InstallationFailed,
{
}

/// A slot has an address that is not null and naturally aligned.
pub proof fn slot_addresses_are_aligned(addr: usize, align: usize, r: bool)
    requires
        call_ensures(RawSlotMemory::is_slot_address, (addr, align), r),
        align > 0,
    ensures
        r <==> addr > 0 && addr as int % align as int == 0,
{
}

/// What a compare-and-swap with a readback asked, and what came of it: one
/// exchange, from the expected word to the new one; where that went through,
/// one read, which has to show the new word.
pub open spec fn swap_asked(
    log: Seq<SlotEvent>,
    after: Seq<SlotEvent>,
    expected: usize,
    new: usize,
    refused: HookError,
    r: Result<(), HookError>,
) -> bool {
    let done = log.len() as int;
    &&& after.len() > done
    &&& after.take(done) == log
    &&& after[done] is Exchange
    &&& after[done]->expected == expected && after[done]->new == new
    &&& after.len() == if after[done]->reply is Ok {
        done + 2
    } else {
        done + 1
    }
    &&& after[done]->reply is Ok ==> after[done + 1] is Read
    &&& r is Ok <==> after[done]->reply is Ok && after[done + 1] == SlotEvent::Read(Some(new))
    &&& r is Err ==> r->Err_0 == if after[done]->reply is Ok {
        HookError::InstallationFailed
    } else {
        refused
    }
}

proof fn lemma_swap_asked<M: SlotMemory>(
    before: M,
    after: M,
    expected: usize,
    new: usize,
    refused: HookError,
    r: Result<(), HookError>,
)
    requires
        crate::method_slot::swapped(before, after, expected, new, refused, r),
    ensures
        swap_asked(before.log(), after.log(), expected, new, refused, r),
{
    let events = choose|events: Seq<SlotEvent>|
        {
            &&& #[trigger] crate::method_slot::swap_events(events, expected, new, refused, r)
            &&& crate::method_slot::accessed(before, after, events)
        };
    let done = before.log().len() as int;
    assert(after.log().take(done) =~= before.log());
    assert(after.log()[done] == events[0]);
    if events.len() == 2 {
        assert(after.log()[done + 1] == events[1]);
    }
}

/// Installing swaps the bound original for the replacement, and restoring swaps
/// the replacement for the original; each swaps once and believes only the
/// readback. A word that is not the expected one is a conflict, or drift.
pub proof fn slot_is_swapped_both_ways<M: SlotMemory>(
    slot: &mut MethodPointerSlot<M>,
    other: &mut MethodPointerSlot<M>,
    replacement: usize,
    install: Result<(), HookError>,
    restore: Result<(), HookError>,
)
    requires
        call_ensures(MethodPointerSlot::<M>::install, (slot, replacement), install),
        call_ensures(MethodPointerSlot::<M>::restore, (other, replacement), restore),
    ensures
        swap_asked(
            old(slot).source().log(),
            final(slot).source().log(),
            old(slot).bound(),
            replacement,
            HookError::SlotConflict,
            install,
        ),
        final(slot).bound() == old(slot).bound(),
        swap_asked(
            old(other).source().log(),
            final(other).source().log(),
            replacement,
            old(other).bound(),
            HookError::OwnershipDrift,
            restore,
        ),
        final(other).bound() == old(other).bound(),
{
    lemma_swap_asked(
        old(slot).source(),
        final(slot).source(),
        old(slot).bound(),
        replacement,
        HookError::SlotConflict,
        install,
    );
    lemma_swap_asked(
        old(other).source(),
        final(other).source(),
        replacement,
        old(other).bound(),
        HookError::OwnershipDrift,
        restore,
    );
}

/// `after` is `before` once it has read `word`.
pub open spec fn read_once<M: SlotMemory>(before: M, after: M, word: Option<usize>) -> bool {
    after.log() == before.log() + seq![SlotEvent::Read(word)]
}

/// Binding reads the word once and takes it as the original exactly where it is
/// there and not null.
pub proof fn binding_reads_the_original<M: SlotMemory>(
    memory: M,
    r: Result<MethodPointerSlot<M>, HookError>,
)
    requires
        call_ensures(MethodPointerSlot::<M>::bind, (memory,), r),
    ensures
        r matches Ok(slot) ==> {
            &&& slot.bound() != 0
            &&& slot.source().log().len() == memory.log().len() + 1
            &&& slot.source().log().last() == SlotEvent::Read(Some(slot.bound()))
            &&& slot.source().log().drop_last() == memory.log()
        },
        r matches Err(error) ==> error == HookError::SlotMalformed,
        exists|after: M, word: Option<usize>|
            {
                &&& #[trigger] read_once(memory, after, word)
                &&& r is Ok <==> word is Some && word->Some_0 != 0
                &&& r matches Ok(slot) ==> word == Some(slot.bound())
            },
{
    let (after, word) = choose|after: M, word: Option<usize>| #[trigger]
        crate::method_slot::binding(memory, after, word, r);
    assert(after.log().drop_last() =~= memory.log());
    assert(after.log().last() == SlotEvent::Read(word));
    assert(after.log() =~= memory.log() + seq![SlotEvent::Read(word)]);
    assert(read_once(memory, after, word));
}

// ---------------------------------------------------------------------------
// The original
// ---------------------------------------------------------------------------

/// A call of the original can be begun once, and ended only when begun.
pub proof fn original_is_begun_once(
    guard: &mut OriginalGuard,
    r: bool,
    ending: &mut OriginalGuard,
    needs: bool,
)
    requires
        call_ensures(OriginalGuard::begin_call, (guard,), r),
        call_ensures(OriginalGuard::end_call, (ending,), ()),
        call_ensures(OriginalGuard::needs_original, (&*final(guard),), needs),
    ensures
        r <==> old(guard)@ is BeforeOriginal,
        r ==> final(guard)@ is CallingOriginal,
        !r ==> final(guard)@ == old(guard)@,
        !needs,
        old(ending)@ is CallingOriginal ==> final(ending)@ is AfterOriginal,
        !(old(ending)@ is CallingOriginal) ==> final(ending)@ == old(ending)@,
{
}

/// A callback calls the original the first time it is asked to, and no other
/// time.
pub proof fn callback_calls_the_original_once<C, R, F: FnOnce(usize) -> R>(
    callback: &mut Callback<C>,
    call: F,
    r: Option<R>,
)
    requires
        call_ensures(Callback::<C>::call_original::<R, F>, (callback, call), r),
    ensures
        r is Some <==> old(callback).phase() is BeforeOriginal,
        r matches Some(result) ==> call.ensures((old(callback).original(),), result)
            && final(callback).phase() is AfterOriginal,
        !(final(callback).phase() is BeforeOriginal),
        final(callback).original() == old(callback).original(),
        final(callback).state() == old(callback).state(),
{
}

/// The value of a handler counts only once the original was begun; a handler
/// that left the original out owes it, and one that was begun and gave no value
/// falls back.
pub proof fn handler_value_needs_the_original(
    phase: OriginalPhase,
    returned: bool,
    r: Settlement,
)
    requires
        call_ensures(settle, (phase, returned), r),
    ensures
        r is Passthrough <==> phase == OriginalPhase::BeforeOriginal,
        r is Handler <==> phase != OriginalPhase::BeforeOriginal && returned,
        r is Fallback <==> phase != OriginalPhase::BeforeOriginal && !returned,
{
}

/// What a dispatch returns. A site that is not published, not installed or
/// without an original gives the fallback; a closed gate gives the original
/// as the game called it; behind open gates the handler is entered with the
/// container and the original of the site, and the value is its own, the
/// original's where it did not call that, and the fallback's where it failed
/// after it had.
pub proof fn dispatch_returns_what_is_due<
    C,
    R,
    P: FnOnce(usize) -> R,
    F: FnOnce() -> R,
    H: FnOnce(Callback<C>) -> HandlerEnd<R>,
>(
    site: &HookSite<C>,
    board: &GateBoard,
    passthrough: P,
    fallback: F,
    handler: H,
    r: R,
)
    requires
        call_ensures(
            HookSite::<C>::dispatch::<R, P, F, H>,
            (site, board, passthrough, fallback, handler),
            r,
        ),
    ensures
        ({
            let usable = site@ is Some && site@->Some_0.installed && site@->Some_0.original_addr
                != 0;
            let inner = site@->Some_0;
            let open = inner.runtime_gate.state(*board) is Open && inner.plugin_gate.state(
                *board,
            ) is Open;
            &&& !usable ==> fallback.ensures((), r)
            &&& usable && !open ==> passthrough.ensures((inner.original_addr,), r)
            &&& usable && open ==> exists|callback: Callback<C>, end: HandlerEnd<R>|
                {
                    &&& #[trigger] handler.ensures((callback,), end)
                    &&& callback.state() == inner.container
                    &&& callback.original() == inner.original_addr
                    &&& callback.phase() == OriginalPhase::BeforeOriginal
                    &&& end.phase() == OriginalPhase::BeforeOriginal ==> passthrough.ensures(
                        (inner.original_addr,),
                        r,
                    )
                    &&& end.phase() != OriginalPhase::BeforeOriginal && end.result() is Some
                        ==> Some(r) == end.result()
                    &&& end.phase() != OriginalPhase::BeforeOriginal && end.result() is None
                        ==> fallback.ensures((), r)
                }
        }),
{
}

// ---------------------------------------------------------------------------
// Sites
// ---------------------------------------------------------------------------

/// A site is published once, whole, and not yet installed; a published site
/// refuses and stays as it is.
pub proof fn site_is_published_once<C>(
    builder: HookBuilder<C, Unpublished>,
    site: &mut HookSite<C>,
    replacement: usize,
    r: Result<HookBuilder<C, Published>, HookError>,
)
    requires
        call_ensures(HookBuilder::<C, Unpublished>::handler, (builder, site, replacement), r),
        builder.attached() is Some,
    ensures
        r is Ok <==> old(site)@ is None,
        r is Ok ==> final(site)@ is Some && {
            let inner = final(site)@->Some_0;
            &&& Some(inner.container) == builder.attached()
            &&& inner.runtime_gate == builder.gates().0
            &&& inner.plugin_gate == builder.gates().1
            &&& inner.replacement == replacement
            &&& inner.original_addr == 0
            &&& !inner.installed
        },
        r matches Err(error) ==> error == HookError::SiteAlreadyRegistered && final(site)@ == old(
            site)@,
{
}

/// A builder keeps the gates it was made with and the container it was given.
pub proof fn builder_keeps_what_it_was_given<C>(
    runtime_gate: GateReader,
    plugin_gate: GateReader,
    made: HookBuilder<C, Unpublished>,
    container: Arc<C>,
    r: HookBuilder<C, Unpublished>,
)
    requires
        call_ensures(HookBuilder::<C, Unpublished>::new, (runtime_gate, plugin_gate), made),
        call_ensures(HookBuilder::<C, Unpublished>::container, (made, container), r),
    ensures
        r.attached() == Some(container),
        r.gates().0 == runtime_gate,
        r.gates().1 == plugin_gate,
{
}

/// A hook is dispatched to exactly while it is installed and both of its gates
/// are open.
pub proof fn both_gates_guard_a_site<C>(
    site: &HookSite<C>,
    board: &GateBoard,
    published: bool,
    r: bool,
)
    requires
        call_ensures(HookSite::<C>::is_published, (site,), published),
        call_ensures(HookSite::<C>::is_dispatchable, (site, board), r),
    ensures
        published <==> site@ is Some,
        r <==> site@ is Some && site@->Some_0.installed && site@->Some_0.runtime_gate.state(
            *board,
        ) is Open && site@->Some_0.plugin_gate.state(*board) is Open,
{
}

/// An installation of the published site swaps its replacement in where the
/// original was, and counts only when the readback shows it. Then the site has
/// the original and is marked; a failure marks nothing and keeps what was
/// published.
pub proof fn installed_hook_was_read_back<C, T: HookTarget, V: MethodResolver>(
    builder: HookBuilder<C, Published>,
    site: &mut HookSite<C>,
    resolver: &mut Option<V>,
    r: Result<InstalledHook<V::Memory>, PluginError>,
)
    requires
        call_ensures(
            HookBuilder::<C, Published>::install::<T, V>,
            (builder, site, resolver),
            r,
        ),
    ensures
        old(site)@ is None ==> r is Err && r->Err_0 == PluginError::Hook(
            HookError::SiteAlreadyRegistered,
        ) && final(site)@ is None,
        old(site)@ is Some && *old(resolver) is None ==> r is Err && r->Err_0
            == PluginError::Message("method resolver unavailable"),
        old(site)@ is Some ==> {
            let inner = old(site)@->Some_0;
            let after = final(site)@->Some_0;
            &&& final(site)@ is Some
            &&& after.container == inner.container
            &&& after.runtime_gate == inner.runtime_gate
            &&& after.plugin_gate == inner.plugin_gate
            &&& after.replacement == inner.replacement
            &&& r is Err ==> after.installed == inner.installed
            &&& r matches Ok(hook) ==> {
                &&& after.installed
                &&& after.original_addr == hook.original()
                &&& hook.original() != 0
                &&& hook.replaced_by() == inner.replacement
                &&& hook.source().log().len() == 3
                &&& hook.source().log()[0] == SlotEvent::Read(Some(hook.original()))
                &&& hook.source().log()[1] is Exchange
                &&& hook.source().log()[1]->expected == hook.original()
                &&& hook.source().log()[1]->new == inner.replacement
                &&& hook.source().log()[1]->reply is Ok
                &&& hook.source().log()[2] == SlotEvent::Read(Some(inner.replacement))
            }
        },
{
    if r is Ok {
        lemma_installed::<T, V, C>(*old(resolver), *final(resolver), old(site)@, final(site)@, r);
    }
}

/// What a confirmed installation left in the log of its slot.
pub proof fn lemma_installed<T: HookTarget, V: MethodResolver, C>(
    resolver: Option<V>,
    asked: Option<V>,
    before: Option<SiteInner<C>>,
    after: Option<SiteInner<C>>,
    r: Result<InstalledHook<V::Memory>, PluginError>,
)
    requires
        crate::hook::installation::<T, V, C>(resolver, asked, before, after, r),
        r is Ok,
    ensures
        ({
            let hook = r->Ok_0;
            let replacement = before->Some_0.replacement;
            &&& before is Some && after is Some
            &&& after->Some_0.installed
            &&& after->Some_0.original_addr == hook.original()
            &&& hook.original() != 0
            &&& hook.replaced_by() == replacement
            &&& hook.source().log().len() == 3
            &&& hook.source().log()[0] == SlotEvent::Read(Some(hook.original()))
            &&& hook.source().log()[1] is Exchange
            &&& hook.source().log()[1]->expected == hook.original()
            &&& hook.source().log()[1]->new == replacement
            &&& hook.source().log()[1]->reply is Ok
            &&& hook.source().log()[2] == SlotEvent::Read(Some(replacement))
        }),
{
    let (target, resolved, reply) = choose|
        target: TargetId,
        resolved: V,
        reply: Result<MethodRef, HookError>,
    | #[trigger]
        crate::hook::target_installation::<T, V, C>(
            target,
            reply,
            resolver,
            resolved,
            asked,
            before,
            after,
            r,
        );
    let method = reply->Ok_0;
    let checked = choose|checked: Result<(), HookError>|
        {
            &&& #[trigger] call_ensures(T::validate, (&method,), checked)
            &&& crate::hook::checked_installation(
                resolved,
                asked->Some_0,
                method,
                checked,
                before->Some_0,
                after,
                r,
            )
        };
    assert(checked is Ok);
    let (memory, bound, end, word) = choose|
        memory: V::Memory,
        bound: V::Memory,
        end: V::Memory,
        word: Option<usize>,
    |
        {
            &&& memory.log() == Seq::<SlotEvent>::empty()
            &&& #[trigger] crate::hook::slot_installation(
                memory,
                bound,
                end,
                word,
                before->Some_0,
                after,
                r,
            )
        };
    let original = crate::method_slot::bound_original(word)->Some_0;
    let result = choose|result: Result<(), HookError>|
        {
            &&& #[trigger] crate::hook::installed_through(
                bound,
                end,
                original,
                before->Some_0.replacement,
                result,
            )
            &&& result is Ok
        };
    let (swap, rollback) = choose|swap: Seq<SlotEvent>, rollback: Seq<SlotEvent>|
        {
            &&& #[trigger] crate::hook::install_trace(
                swap,
                rollback,
                original,
                before->Some_0.replacement,
                result,
            )
            &&& crate::method_slot::accessed(bound, end, swap + rollback)
        };
    assert(bound.log() =~= seq![SlotEvent::Read(word)]);
    assert(end.log() =~= seq![SlotEvent::Read(word)] + swap);
    assert(end.log()[1] == swap[0]);
    assert(end.log()[2] == swap[1]);
}

/// The resolver was asked for the target of `T` and answered `reply`; the method
/// that it gave was validated, and only a valid one was asked a slot of. What
/// was refused on the way is the answer, and the site stays as it was.
pub open spec fn asked_for_its_target<T: HookTarget, V: MethodResolver, C>(
    resolver: V,
    asked: V,
    before: SiteInner<C>,
    after: Option<SiteInner<C>>,
    target: TargetId,
    reply: Result<MethodRef, HookError>,
    r: Result<InstalledHook<V::Memory>, PluginError>,
) -> bool {
    let log = resolver.log() + seq![ResolverEvent::Method(target@, reply)];
    &&& call_ensures(T::target, (), target)
    &&& asked.permitted() == resolver.permitted()
    &&& reply is Err ==> asked.log() == log && after == Some(before) && r is Err && r->Err_0
        == PluginError::Hook(reply->Err_0)
    &&& reply is Ok ==> exists|checked: Result<(), HookError>|
        {
            &&& #[trigger] call_ensures(T::validate, (&reply->Ok_0,), checked)
            &&& checked is Err ==> asked.log() == log && after == Some(before) && r is Err
                && r->Err_0 == PluginError::Hook(checked->Err_0)
            &&& checked is Ok ==> {
                &&& asked.log().len() == log.len() + 1
                &&& asked.log().drop_last() == log
                &&& asked.log().last() is Slot
                &&& asked.log().last()->Slot_0 == reply->Ok_0
                &&& r is Err ==> r->Err_0 is Hook
            }
        }
}

/// An installation is of the target of its type: it is the one that is
/// resolved, its method is validated, and its slot is the one that is taken.
pub proof fn installation_is_of_its_target<C, T: HookTarget, V: MethodResolver>(
    builder: HookBuilder<C, Published>,
    site: &mut HookSite<C>,
    resolver: &mut Option<V>,
    r: Result<InstalledHook<V::Memory>, PluginError>,
)
    requires
        old(site)@ is Some,
        *old(resolver) is Some,
        call_ensures(
            HookBuilder::<C, Published>::install::<T, V>,
            (builder, site, resolver),
            r,
        ),
    ensures
        *final(resolver) is Some,
        exists|target: TargetId, reply: Result<MethodRef, HookError>| #[trigger]
            asked_for_its_target::<T, V, C>(
                (*old(resolver))->Some_0,
                (*final(resolver))->Some_0,
                old(site)@->Some_0,
                final(site)@,
                target,
                reply,
                r,
            ),
{
    lemma_asked::<T, V, C>(*old(resolver), *final(resolver), old(site)@, final(site)@, r);
}

/// An installation through a resolver asks for its target.
pub proof fn lemma_asked<T: HookTarget, V: MethodResolver, C>(
    resolver: Option<V>,
    asked: Option<V>,
    before: Option<SiteInner<C>>,
    after: Option<SiteInner<C>>,
    r: Result<InstalledHook<V::Memory>, PluginError>,
)
    requires
        crate::hook::installation::<T, V, C>(resolver, asked, before, after, r),
        before is Some,
        resolver is Some,
    ensures
        asked is Some,
        exists|target: TargetId, reply: Result<MethodRef, HookError>| #[trigger]
            asked_for_its_target::<T, V, C>(
                resolver->Some_0,
                asked->Some_0,
                before->Some_0,
                after,
                target,
                reply,
                r,
            ),
{
    let (target, resolved, reply) = choose|
        target: TargetId,
        resolved: V,
        reply: Result<MethodRef, HookError>,
    | #[trigger]
        crate::hook::target_installation::<T, V, C>(
            target,
            reply,
            resolver,
            resolved,
            asked,
            before,
            after,
            r,
        );
    let log = resolver->Some_0.log() + seq![ResolverEvent::Method(target@, reply)];
    assert(resolved.log() =~= log);
    if let Ok(method) = reply {
        let checked = choose|checked: Result<(), HookError>|
            {
                &&& #[trigger] call_ensures(T::validate, (&method,), checked)
                &&& crate::hook::checked_installation(
                    resolved,
                    asked->Some_0,
                    method,
                    checked,
                    before->Some_0,
                    after,
                    r,
                )
            };
        assert(call_ensures(T::validate, (&reply->Ok_0,), checked));
        if checked is Ok {
            assert(asked->Some_0.log().drop_last() =~= log);
        }
    }
    assert(asked_for_its_target::<T, V, C>(
        resolver->Some_0,
        asked->Some_0,
        before->Some_0,
        after,
        target,
        reply,
        r,
    ));
}

/// Restoring swaps the original back once, only while the hook is installed,
/// and clears the flag exactly when the readback confirms it. The owner is told
/// the same: nothing to do where it is not installed, lost ownership on drift.
pub proof fn restored_hook_was_read_back<M: SlotMemory, C>(
    hook: &mut InstalledHook<M>,
    site: &mut HookSite<C>,
    r: Result<(), HookError>,
    owned: &mut InstalledHook<M>,
    owned_site: &mut HookSite<C>,
    s: Result<(), RestoreError>,
)
    requires
        call_ensures(InstalledHook::<M>::restore::<C>, (hook, site), r),
        call_ensures(InstalledHook::<M>::restore_for_owner::<C>, (owned, owned_site), s),
        old(site)@ is Some && old(owned_site)@ is Some,
    ensures
        !old(site)@->Some_0.installed ==> r == Err::<(), HookError>(HookError::OwnershipDrift)
            && final(site)@ == old(site)@ && final(hook).source() == old(hook).source(),
        old(site)@->Some_0.installed ==> {
            &&& swap_asked(
                old(hook).source().log(),
                final(hook).source().log(),
                old(hook).replaced_by(),
                old(hook).original(),
                HookError::OwnershipDrift,
                r,
            )
            &&& final(site)@ is Some
            &&& final(site)@->Some_0.installed == (r is Err)
            &&& final(site)@->Some_0.original_addr == old(site)@->Some_0.original_addr
            &&& final(site)@->Some_0.replacement == old(site)@->Some_0.replacement
            &&& final(site)@->Some_0.container == old(site)@->Some_0.container
            &&& final(site)@->Some_0.runtime_gate == old(site)@->Some_0.runtime_gate
            &&& final(site)@->Some_0.plugin_gate == old(site)@->Some_0.plugin_gate
        },
        !old(owned_site)@->Some_0.installed ==> s is Ok && final(owned_site)@ == old(owned_site)@
            && final(owned).source() == old(owned).source(),
        old(owned_site)@->Some_0.installed ==> {
            &&& exists|outcome: Result<(), HookError>|
                {
                    &&& #[trigger] swap_asked(
                        old(owned).source().log(),
                        final(owned).source().log(),
                        old(owned).replaced_by(),
                        old(owned).original(),
                        HookError::OwnershipDrift,
                        outcome,
                    )
                    &&& s is Ok <==> outcome is Ok
                    &&& s == Err::<(), RestoreError>(RestoreError::OwnershipLost) <==> outcome
                        == Err::<(), HookError>(HookError::OwnershipDrift)
                }
            &&& final(owned_site)@ is Some
            &&& final(owned_site)@->Some_0.installed == (s is Err)
            &&& final(owned_site)@->Some_0.original_addr == old(owned_site)@->Some_0.original_addr
            &&& final(owned_site)@->Some_0.replacement == old(owned_site)@->Some_0.replacement
            &&& final(owned_site)@->Some_0.container == old(owned_site)@->Some_0.container
            &&& final(owned_site)@->Some_0.runtime_gate == old(owned_site)@->Some_0.runtime_gate
            &&& final(owned_site)@->Some_0.plugin_gate == old(owned_site)@->Some_0.plugin_gate
        },
{
    if old(site)@->Some_0.installed {
        lemma_swap_asked(
            old(hook).source(),
            final(hook).source(),
            old(hook).replaced_by(),
            old(hook).original(),
            HookError::OwnershipDrift,
            r,
        );
    }
    if old(owned_site)@->Some_0.installed {
        let outcome = choose|outcome: Result<(), HookError>|
            {
                &&& #[trigger] crate::method_slot::swapped(
                    old(owned).source(),
                    final(owned).source(),
                    old(owned).replaced_by(),
                    old(owned).original(),
                    HookError::OwnershipDrift,
                    outcome,
                )
                &&& s == crate::hook::owner_result(outcome)
            };
        lemma_swap_asked(
            old(owned).source(),
            final(owned).source(),
            old(owned).replaced_by(),
            old(owned).original(),
            HookError::OwnershipDrift,
            outcome,
        );
    }
}

/// A hook knows its own site by the original and the replacement, and reports
/// the flag of the site.
pub proof fn hook_knows_its_site<M: SlotMemory, C>(
    hook: &InstalledHook<M>,
    site: &HookSite<C>,
    found: Option<&HookSite<C>>,
    installed: bool,
)
    requires
        call_ensures(InstalledHook::<M>::site::<C>, (hook, site), found),
        call_ensures(InstalledHook::<M>::is_installed::<C>, (hook, site), installed),
    ensures
        found is Some <==> site@ is Some && site@->Some_0.original_addr == hook.original()
            && site@->Some_0.replacement == hook.replaced_by(),
        found matches Some(own) ==> own == site,
        installed <==> site@ is Some && site@->Some_0.installed,
{
}

/// Installing on a bound slot swaps once; only a swap that went through and
/// could not be read back is swapped back, once.
pub proof fn unconfirmed_install_is_undone<M: SlotMemory>(
    slot: &mut MethodPointerSlot<M>,
    replacement: usize,
    r: Result<(), HookError>,
)
    requires
        call_ensures(install_or_roll_back::<M>, (slot, replacement), r),
    ensures
        ({
            let done = old(slot).source().log().len() as int;
            let log = final(slot).source().log();
            let original = old(slot).bound();
            let swapped_in = log[done]->reply is Ok;
            &&& log.len() > done
            &&& log[done] is Exchange && log[done]->expected == original && log[done]->new
                == replacement
            &&& r is Ok <==> swapped_in && log[done + 1] == SlotEvent::Read(Some(replacement))
            &&& !swapped_in ==> r == Err::<(), HookError>(HookError::SlotConflict) && log.len()
                == done + 1
            &&& log.take(done) == old(slot).source().log()
            &&& r is Ok ==> log.len() == done + 2
            &&& swapped_in && r is Err ==> r == Err::<(), HookError>(HookError::InstallationFailed)
            &&& r == Err::<(), HookError>(HookError::InstallationFailed) ==> {
                &&& swapped_in
                &&& log.len() == if log[done + 2]->reply is Ok {
                    done + 4
                } else {
                    done + 3
                }
                &&& log[done + 2] is Exchange
                &&& log[done + 2]->expected == replacement
                &&& log[done + 2]->new == original
            }
        }),
        final(slot).bound() == old(slot).bound(),
{
    let before = old(slot).source();
    let after = final(slot).source();
    let original = old(slot).bound();
    assert(after.log().take(before.log().len() as int) =~= before.log());
    let (swap, rollback) = choose|swap: Seq<SlotEvent>, rollback: Seq<SlotEvent>|
        {
            &&& #[trigger] crate::hook::install_trace(swap, rollback, original, replacement, r)
            &&& crate::method_slot::accessed(before, after, swap + rollback)
        };
    let done = before.log().len() as int;
    assert(after.log()[done] == swap[0]);
    if swap.len() == 2 {
        assert(after.log()[done + 1] == swap[1]);
    }
    if r == Err::<(), HookError>(HookError::InstallationFailed) {
        assert(after.log()[done + 2] == rollback[0]);
    }
}

/// The readers of a gate read that gate, and it is closed for good exactly
/// where it failed.
pub proof fn gate_hands_out_its_reader(
    gate: &RuntimeGate,
    reader: GateReader,
    plugin: &PluginGate,
    plugin_reader: GateReader,
    board: &GateBoard,
    closed: bool,
    failed: bool,
    open: bool,
    plugin_open: bool,
    seen_open: bool,
)
    requires
        gate.handle().stands_on(*board),
        plugin.handle().stands_on(*board),
        call_ensures(RuntimeGate::reader, (gate,), reader),
        call_ensures(PluginGate::reader, (plugin,), plugin_reader),
        call_ensures(RuntimeGate::is_closed, (gate, board), closed),
        call_ensures(GateReader::has_failed, (&reader, board), failed),
        call_ensures(GateReader::is_open, (&reader, board), open),
        call_ensures(PluginGate::is_open, (plugin, board), plugin_open),
        call_ensures(GateReader::is_open, (&plugin_reader, board), seen_open),
    ensures
        closed <==> failed,
        !(closed && open),
        plugin_open <==> seen_open,
        board@[reader.place()] is FailedClosed <==> closed,
        board@[reader.place()] is Open <==> open,
{
}

/// A handler ends with what it returned, and with the phase of the original
/// call that it reached.
pub proof fn handler_ends_as_it_was<C, R, F: FnOnce(usize) -> R>(
    callback: &mut Callback<C>,
    call: F,
    called: Option<R>,
    state: &C,
    result: Option<R>,
    end: HandlerEnd<R>,
)
    requires
        call_ensures(Callback::<C>::call_original::<R, F>, (callback, call), called),
        call_ensures(Callback::<C>::container, (&*final(callback),), state),
        call_ensures(Callback::<C>::finish::<R>, (*final(callback), result), end),
        old(callback).phase() is BeforeOriginal,
    ensures
        end.phase() is AfterOriginal,
        end.result() == result,
        *state == *old(callback).state(),
        called matches Some(value) && call.ensures((old(callback).original(),), value),
{
}

/// A bound slot tells the original that it read, and what it reads now.
pub proof fn slot_tells_its_original<M: SlotMemory>(
    slot: &mut MethodPointerSlot<M>,
    original: usize,
    current: Option<usize>,
)
    requires
        call_ensures(MethodPointerSlot::<M>::original, (&*old(slot),), original),
        call_ensures(MethodPointerSlot::<M>::current, (slot,), current),
    ensures
        original == old(slot).bound(),
        final(slot).bound() == original,
        final(slot).source().log().len() == old(slot).source().log().len() + 1,
        final(slot).source().log().last() == SlotEvent::Read(current),
        final(slot).source().log().drop_last() == old(slot).source().log(),
{
    assert(final(slot).source().log().drop_last() =~= old(slot).source().log());
}

} // verus!
