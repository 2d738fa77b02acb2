//! Hook typestate: publish before install is a compile-time fact.
//!
//! Each target has exactly one process-lifetime site. The builder typestate
//! guarantees that a [`HookSite`] is fully published (both gate readers,
//! container, replacement pointer) before `install`, the only installation
//! path, can run. A site is a retention root: once published it occupies the
//! target until process exit, even if installation fails, the hook is
//! restored or the plugin retires.

use core::marker::PhantomData;
use std::sync::Arc;

use vstd::prelude::*;

use crate::backend::{MethodResolver, ResolverEvent};
use crate::callback::CallbackCtx;
use crate::error::{HookError, PluginError, RestoreError};
use crate::gate::{GateBoard, GateReader};
use crate::method_slot::{
    MethodPointerSlot, MethodRef, SlotEvent, SlotMemory, TargetId,
};
use crate::original::{OriginalGuard, OriginalPhase};

verus! {

/// The declared identity of one hook target.
pub trait HookTarget: Sized {
    /// Assembly, namespace, class, method and signature identity.
    fn target() -> TargetId;

    /// Validates the resolved method against this target. The default rejects
    /// identity drift; authors may add stricter checks but never weaker ones.
    fn validate(method: &MethodRef) -> (r: Result<(), HookError>)
        ensures
            r is Ok ==> exists|target: TargetId| #[trigger]
                call_ensures(Self::target, (), target) && crate::method_slot::is_target(
                    target@,
                    *method,
                ),
        default_ensures
            exists|target: TargetId| #[trigger]
                call_ensures(Self::target, (), target) && (r is Ok
                    <==> crate::method_slot::is_target(target@, *method)),
            r is Err ==> r->Err_0 == HookError::SignatureMismatch,
    {
        let target = Self::target();
        assert(call_ensures(Self::target, (), target));
        if method.matches_target(&target) {
            Ok(())
        } else {
            Err(HookError::SignatureMismatch)
        }
    }
}

/// Content of a published site.
pub struct SiteInner<C> {
    pub container: Arc<C>,
    pub runtime_gate: GateReader,
    pub plugin_gate: GateReader,
    /// Address of the replacement function.
    pub replacement: usize,
    /// Address of the original; `0` until installation captured it.
    pub original_addr: usize,
    /// The single conservative installed flag: set once installation is
    /// confirmed by readback, cleared once restore is confirmed.
    pub installed: bool,
}

/// The process-lifetime site of one hook target (retention root).
pub struct HookSite<C> {
    inner: Option<SiteInner<C>>,
}

impl<C> View for HookSite<C> {
    type V = Option<SiteInner<C>>;

    closed spec fn view(&self) -> Option<SiteInner<C>> {
        self.inner
    }
}

/// Both gates of a published site stand on `board`.
pub open spec fn site_on<C>(site: Option<SiteInner<C>>, board: GateBoard) -> bool {
    site matches Some(inner) ==> inner.runtime_gate.stands_on(board)
        && inner.plugin_gate.stands_on(board)
}

/// Both gates of a published site are open.
pub open spec fn gates_open<C>(inner: SiteInner<C>, board: GateBoard) -> bool {
    inner.runtime_gate.state(board) is Open && inner.plugin_gate.state(board) is Open
}

impl<C> HookSite<C> {
    #[must_use]
    pub fn new() -> (r: Self)
        ensures
            r@ is None,
    {
        HookSite { inner: None }
    }

    /// `true` once the site has been published (permanently, to process exit).
    #[must_use]
    pub fn is_published(&self) -> (r: bool)
        ensures
            r == (self@ is Some),
    {
        self.inner.is_some()
    }

    /// `true` while this site's hook is installed and both gates are open.
    #[must_use]
    pub fn is_dispatchable(&self, board: &GateBoard) -> (r: bool)
        requires
            site_on(self@, *board),
        ensures
            r == (self@ matches Some(inner) && inner.installed && gates_open(inner, *board)),
    {
        match &self.inner {
            Some(inner) => inner.installed && inner.runtime_gate.is_open(board)
                && inner.plugin_gate.is_open(board),
            None => false,
        }
    }
}

impl<C> Default for HookSite<C> {
    fn default() -> (r: Self)
        ensures
            r@ is None,
    {
        HookSite::new()
    }
}

/// Callback context handed to the handler when both gates are open.
pub struct Callback<C> {
    container: Arc<C>,
    original_addr: usize,
    guard: OriginalGuard,
    cap: CallbackCtx,
}

impl<C> Callback<C> {
    /// The plugin's container.
    pub closed spec fn state(&self) -> Arc<C> {
        self.container
    }

    /// Address of the original.
    pub closed spec fn original(&self) -> usize {
        self.original_addr
    }

    /// Phase of the exactly-once original call.
    pub closed spec fn phase(&self) -> OriginalPhase {
        self.guard@
    }

    /// The capability token of this callback.
    pub closed spec fn token(&self) -> CallbackCtx {
        self.cap
    }

    /// The callback that a site enters its handler with.
    pub open spec fn enters(&self, inner: SiteInner<C>) -> bool {
        &&& self.state() == inner.container
        &&& self.original() == inner.original_addr
        &&& self.phase() is BeforeOriginal
    }

    /// Capability token for cross-domain endpoint operations.
    #[must_use]
    pub fn cap(&self) -> (r: &CallbackCtx)
        ensures
            *r == self.token(),
    {
        &self.cap
    }

    /// The plugin's registered container state.
    #[must_use]
    pub fn container(&self) -> (r: &C)
        ensures
            *r == *self.state(),
    {
        &self.container
    }

    /// Invokes the original at most once. `call` receives the address of the
    /// original and invokes it with the handler's own arguments. Returns `None`
    /// when the original was already invoked through this callback; `call` is
    /// then not even callable.
    pub fn call_original<R, F: FnOnce(usize) -> R>(&mut self, call: F) -> (r: Option<R>)
        requires
            old(self).phase() is BeforeOriginal ==> call.requires((old(self).original(),)),
        ensures
            final(self).state() == old(self).state(),
            final(self).original() == old(self).original(),
            final(self).token() == old(self).token(),
            if old(self).phase() is BeforeOriginal {
                &&& r is Some
                &&& call.ensures((old(self).original(),), r->Some_0)
                &&& final(self).phase() is AfterOriginal
            } else {
                r is None && final(self).phase() == old(self).phase()
            },
    {
        if !self.guard.begin_call() {
            return None;
        }
        let result = call(self.original_addr);
        self.guard.end_call();
        Some(result)
    }

    /// Ends the handler: with its result, or with `None` where it panicked.
    pub fn finish<R>(self, result: Option<R>) -> (r: HandlerEnd<R>)
        ensures
            r.phase() == self.phase(),
            r.result() == result,
    {
        HandlerEnd { phase: self.guard.phase(), result }
    }
}

/// How a handler ended.
pub struct HandlerEnd<R> {
    phase: OriginalPhase,
    result: Option<R>,
}

impl<R> HandlerEnd<R> {
    /// Phase of the original call when the handler ended.
    pub closed spec fn phase(&self) -> OriginalPhase {
        self.phase
    }

    /// The handler's result; `None` where it panicked.
    pub closed spec fn result(&self) -> Option<R> {
        self.result
    }
}

/// Where the return value of a dispatch comes from.
#[derive(Debug, Clone, Copy, PartialEq, Eq, Structural)]
pub enum Settlement {
    /// The handler's own result.
    Handler,
    /// The original, which still has to be called once.
    Passthrough,
    /// The fallback: the original's effect is unknown, or it was called and
    /// the handler panicked afterwards.
    Fallback,
}

/// Where the return value comes from, given how far the original call got and
/// whether the handler returned.
pub open spec fn settled(phase: OriginalPhase, returned: bool) -> Settlement {
    if phase is BeforeOriginal {
        Settlement::Passthrough
    } else if returned {
        Settlement::Handler
    } else {
        Settlement::Fallback
    }
}

/// Where the return value comes from.
pub fn settle(phase: OriginalPhase, returned: bool) -> (r: Settlement)
    ensures
        r == settled(phase, returned),
{
    match phase {
        OriginalPhase::BeforeOriginal => Settlement::Passthrough,
        _ => if returned {
            Settlement::Handler
        } else {
            Settlement::Fallback
        },
    }
}

/// How many calls of the original a handler has begun when it ends in `phase`.
pub open spec fn begun_calls(phase: OriginalPhase) -> nat {
    if phase is BeforeOriginal {
        0
    } else {
        1
    }
}

/// What may still be called once a handler ended as `end`: the passthrough or
/// the fallback or neither, as the end is settled.
pub open spec fn owed<R, P: FnOnce(usize) -> R, F: FnOnce() -> R>(
    end: HandlerEnd<R>,
    original: usize,
    passthrough: P,
    fallback: F,
) -> bool {
    match settled(end.phase(), end.result() is Some) {
        Settlement::Handler => true,
        Settlement::Passthrough => passthrough.requires((original,)),
        Settlement::Fallback => fallback.requires(()),
    }
}

/// What a dispatch through `site` may call, and nothing beside it: the fallback
/// alone where the site is not in use, the passthrough alone while a gate is
/// closed, and otherwise the handler and then what its end owes.
pub open spec fn dispatchable<
    C,
    R,
    P: FnOnce(usize) -> R,
    F: FnOnce() -> R,
    H: FnOnce(Callback<C>) -> HandlerEnd<R>,
>(
    site: Option<SiteInner<C>>,
    board: GateBoard,
    passthrough: P,
    fallback: F,
    handler: H,
) -> bool {
    match site {
        None => fallback.requires(()),
        Some(inner) => if !inner.installed || inner.original_addr == 0 {
            fallback.requires(())
        } else if !gates_open(inner, board) {
            passthrough.requires((inner.original_addr,))
        } else {
            &&& forall|callback: Callback<C>|
                callback.enters(inner) ==> #[trigger] handler.requires((callback,))
            &&& forall|callback: Callback<C>, end: HandlerEnd<R>|
                callback.enters(inner) && #[trigger] handler.ensures((callback,), end) ==> owed(
                    end,
                    inner.original_addr,
                    passthrough,
                    fallback,
                )
        },
    }
}

/// The original is called exactly once behind open gates, whichever way the
/// handler ended: the call that the handler began and the passthrough that its
/// end owes are one together. A handler that returned owes no fallback.
pub proof fn original_called_exactly_once(phase: OriginalPhase, returned: bool)
    ensures
        begun_calls(phase) + (if settled(phase, returned) is Passthrough {
            1nat
        } else {
            0nat
        }) == 1,
        returned ==> settled(phase, returned) !is Fallback,
{
}

/// A dispatch calls nothing but what is owed, so the rest need not even be
/// callable: without an installed original only the fallback, behind a closed
/// gate only the passthrough and never the handler, and behind open gates, where
/// every handler ends with its own value after the original, neither of them.
pub proof fn only_what_is_owed_is_called<
    C,
    R,
    P: FnOnce(usize) -> R,
    F: FnOnce() -> R,
    H: FnOnce(Callback<C>) -> HandlerEnd<R>,
>(inner: SiteInner<C>, board: GateBoard, passthrough: P, fallback: F, handler: H)
    ensures
        fallback.requires(()) ==> dispatchable(None, board, passthrough, fallback, handler),
        (!inner.installed || inner.original_addr == 0) && fallback.requires(()) ==> dispatchable(
            Some(inner),
            board,
            passthrough,
            fallback,
            handler,
        ),
        inner.installed && inner.original_addr != 0 && !gates_open(inner, board)
            && passthrough.requires((inner.original_addr,)) ==> dispatchable(
            Some(inner),
            board,
            passthrough,
            fallback,
            handler,
        ),
        ({
            &&& inner.installed && inner.original_addr != 0 && gates_open(inner, board)
            &&& forall|callback: Callback<C>|
                callback.enters(inner) ==> #[trigger] handler.requires((callback,))
            &&& forall|callback: Callback<C>, end: HandlerEnd<R>| #[trigger]
                handler.ensures((callback,), end) ==> end.phase() is AfterOriginal
                    && end.result() is Some
        }) ==> dispatchable(Some(inner), board, passthrough, fallback, handler),
{
}

impl<C> HookSite<C> {
    /// Dispatch entry for the author's replacement wrapper.
    ///
    /// 1. Site not published, not installed or without a captured original:
    ///    `fallback`.
    /// 2. Either gate closed: `passthrough`, and the handler is unreachable.
    /// 3. Gates open: the handler. If it ends before invoking the original,
    ///    the original is called once via `passthrough`. If it panics during
    ///    or after the original call, `fallback` produces the return value.
    pub fn dispatch<
        R,
        P: FnOnce(usize) -> R,
        F: FnOnce() -> R,
        H: FnOnce(Callback<C>) -> HandlerEnd<R>,
    >(&self, board: &GateBoard, passthrough: P, fallback: F, handler: H) -> (r: R)
        requires
            site_on(self@, *board),
            dispatchable(self@, *board, passthrough, fallback, handler),
        ensures
            match self@ {
                None => fallback.ensures((), r),
                Some(inner) => if !inner.installed || inner.original_addr == 0 {
                    fallback.ensures((), r)
                } else if !gates_open(inner, *board) {
                    passthrough.ensures((inner.original_addr,), r)
                } else {
                    exists|callback: Callback<C>, end: HandlerEnd<R>|
                        {
                            &&& callback.enters(inner)
                            &&& #[trigger] handler.ensures((callback,), end)
                            &&& match settled(end.phase(), end.result() is Some) {
                                Settlement::Handler => r == end.result()->Some_0,
                                Settlement::Passthrough => passthrough.ensures(
                                    (inner.original_addr,),
                                    r,
                                ),
                                Settlement::Fallback => fallback.ensures((), r),
                            }
                        }
                },
            },
    {
        let inner = match &self.inner {
            Some(inner) => inner,
            None => return fallback(),
        };
        if !inner.installed || inner.original_addr == 0 {
            return fallback();
        }
        if !inner.runtime_gate.is_open(board) || !inner.plugin_gate.is_open(board) {
            return passthrough(inner.original_addr);
        }
        let callback = Callback {
            container: inner.container.clone(),
            original_addr: inner.original_addr,
            guard: OriginalGuard::new(),
            cap: CallbackCtx::new(),
        };
        let ghost entered = callback;
        assert(entered.enters(*inner));
        let end = handler(callback);
        let ghost ended = end;
        assert(handler.ensures((entered,), ended));
        let settlement = settle(end.phase, end.result.is_some());
        match settlement {
            Settlement::Passthrough => passthrough(inner.original_addr),
            Settlement::Fallback => fallback(),
            Settlement::Handler => match end.result {
                Some(result) => result,
                None => fallback(),
            },
        }
    }
}

// ---------------------------------------------------------------------------
// Publication and installation
// ---------------------------------------------------------------------------

/// Builder state: site content not yet published.
pub struct Unpublished;

/// Builder state: site published, `install` available.
pub struct Published;

/// Typestate builder over one hook site.
pub struct HookBuilder<C, S> {
    runtime_gate: GateReader,
    plugin_gate: GateReader,
    container: Option<Arc<C>>,
    state: PhantomData<S>,
}

impl<C, S> HookBuilder<C, S> {
    /// The container attached so far.
    pub closed spec fn attached(&self) -> Option<Arc<C>> {
        self.container
    }

    /// Runtime gate and owner plugin gate.
    pub closed spec fn gates(&self) -> (GateReader, GateReader) {
        (self.runtime_gate, self.plugin_gate)
    }
}

impl<C> HookBuilder<C, Unpublished> {
    /// Starts the publish and install chain of one site.
    pub fn new(runtime_gate: GateReader, plugin_gate: GateReader) -> (r: Self)
        ensures
            r.attached() is None,
            r.gates() == (runtime_gate, plugin_gate),
    {
        HookBuilder { runtime_gate, plugin_gate, container: None, state: PhantomData }
    }

    /// Attaches the plugin's container state (shared with the callback
    /// domain).
    pub fn container(self, container: Arc<C>) -> (r: Self)
        ensures
            r.attached() == Some(container),
            r.gates() == self.gates(),
    {
        HookBuilder {
            runtime_gate: self.runtime_gate,
            plugin_gate: self.plugin_gate,
            container: Some(container),
            state: PhantomData,
        }
    }

    /// Publishes the full site (both gate readers, container, replacement
    /// pointer).
    ///
    /// Fails with [`HookError::SiteAlreadyRegistered`] when the site was
    /// already published: one target, one site, process lifetime.
    pub fn handler(self, site: &mut HookSite<C>, replacement: usize) -> (r: Result<
        HookBuilder<C, Published>,
        HookError,
    >)
        requires
            self.attached() is Some,
        ensures
            if old(site)@ is Some {
                &&& r is Err && r->Err_0 == HookError::SiteAlreadyRegistered
                &&& final(site)@ == old(site)@
            } else {
                &&& r is Ok && r->Ok_0.gates() == self.gates()
                &&& final(site)@ == Some(
                    SiteInner {
                        container: self.attached()->Some_0,
                        runtime_gate: self.gates().0,
                        plugin_gate: self.gates().1,
                        replacement,
                        original_addr: 0,
                        installed: false,
                    },
                )
            },
    {
        if site.inner.is_some() {
            return Err(HookError::SiteAlreadyRegistered);
        }
        if let Some(container) = self.container {
            site.inner = Some(
                SiteInner {
                    container,
                    runtime_gate: self.runtime_gate,
                    plugin_gate: self.plugin_gate,
                    replacement,
                    original_addr: 0,
                    installed: false,
                },
            );
        }
        Ok(
            HookBuilder {
                runtime_gate: self.runtime_gate,
                plugin_gate: self.plugin_gate,
                container: None,
                state: PhantomData,
            },
        )
    }
}

/// The accesses of one installation on a bound slot: a swap with a readback
/// and, where the readback does not confirm it, exactly one ownership-aware
/// rollback, whose outcome is not looked at.
pub open spec fn install_trace(
    swap: Seq<SlotEvent>,
    rollback: Seq<SlotEvent>,
    original: usize,
    replacement: usize,
    result: Result<(), HookError>,
) -> bool {
    &&& crate::method_slot::swap_events(
        swap,
        original,
        replacement,
        HookError::SlotConflict,
        result,
    )
    &&& if result == Err::<(), HookError>(HookError::InstallationFailed) {
        exists|rolled: Result<(), HookError>| #[trigger]
            crate::method_slot::swap_events(
                rollback,
                replacement,
                original,
                HookError::OwnershipDrift,
                rolled,
            )
    } else {
        rollback == Seq::<SlotEvent>::empty()
    }
}

/// `after` is the access `before` after one installation and nothing else.
pub open spec fn installed_through<M: SlotMemory>(
    before: M,
    after: M,
    original: usize,
    replacement: usize,
    result: Result<(), HookError>,
) -> bool {
    exists|swap: Seq<SlotEvent>, rollback: Seq<SlotEvent>|
        {
            &&& #[trigger] install_trace(swap, rollback, original, replacement, result)
            &&& crate::method_slot::accessed(before, after, swap + rollback)
        }
}

/// After the accesses `log`, an installation may make its exchange, and the one
/// that rolls it back after a readback that does not confirm it.
pub open spec fn may_install(
    permitted: Set<Seq<SlotEvent>>,
    log: Seq<SlotEvent>,
    original: usize,
    replacement: usize,
) -> bool {
    &&& crate::method_slot::may_exchange(permitted, log, original, replacement)
    &&& forall|swap: Seq<SlotEvent>| #[trigger]
        crate::method_slot::swap_events(
            swap,
            original,
            replacement,
            HookError::SlotConflict,
            Err::<(), HookError>(HookError::InstallationFailed),
        ) ==> crate::method_slot::may_exchange(permitted, log + swap, replacement, original)
}

/// Swaps the replacement in and rolls an unconfirmed swap back once.
pub fn install_or_roll_back<M: SlotMemory>(
    slot: &mut MethodPointerSlot<M>,
    replacement: usize,
) -> (r: Result<(), HookError>)
    requires
        may_install(
            old(slot).source().permitted(),
            old(slot).source().log(),
            old(slot).bound(),
            replacement,
        ),
    ensures
        final(slot).bound() == old(slot).bound(),
        installed_through(
            old(slot).source(),
            final(slot).source(),
            old(slot).bound(),
            replacement,
            r,
        ),
{
    let ghost before = slot.source();
    let ghost original = slot.bound();
    let r = slot.install(replacement);
    let ghost middle = slot.source();
    let ghost swap = choose|events: Seq<SlotEvent>|
        {
            &&& #[trigger] crate::method_slot::swap_events(
                events,
                original,
                replacement,
                HookError::SlotConflict,
                r,
            )
            &&& crate::method_slot::accessed(before, middle, events)
        };
    let ghost mut rollback = Seq::<SlotEvent>::empty();
    if let Err(HookError::InstallationFailed) = r {
        let rolled = slot.restore(replacement);
        proof {
            rollback = choose|events: Seq<SlotEvent>|
                {
                    &&& #[trigger] crate::method_slot::swap_events(
                        events,
                        replacement,
                        original,
                        HookError::OwnershipDrift,
                        rolled,
                    )
                    &&& crate::method_slot::accessed(middle, slot.source(), events)
                };
        }
    }
    assert(install_trace(swap, rollback, original, replacement, r));
    assert(slot.source().log() =~= before.log() + (swap + rollback));
    r
}

/// Installation record of one hook.
pub struct InstalledHook<M: SlotMemory> {
    slot: MethodPointerSlot<M>,
    replacement: usize,
}

impl<M: SlotMemory> InstalledHook<M> {
    /// The original pointer.
    pub closed spec fn original(&self) -> usize {
        self.slot.bound()
    }

    /// The memory that was bound.
    pub closed spec fn source(&self) -> M {
        self.slot.source()
    }

    /// The replacement pointer.
    pub closed spec fn replaced_by(&self) -> usize {
        self.replacement
    }

    /// `site` is the site that this hook was installed through: it has the
    /// hook's original and its replacement.
    pub open spec fn is_of<C>(&self, site: Option<SiteInner<C>>) -> bool {
        &&& site is Some
        &&& site->Some_0.original_addr == self.original()
        &&& site->Some_0.replacement == self.replaced_by()
    }

    /// The slot may be restored now.
    pub open spec fn may_restore(&self) -> bool {
        crate::method_slot::may_exchange(
            self.source().permitted(),
            self.source().log(),
            self.replaced_by(),
            self.original(),
        )
    }

    /// The site that this hook was installed through, where `site` is that one.
    #[must_use]
    pub fn site<'a, C>(&self, site: &'a HookSite<C>) -> (r: Option<&'a HookSite<C>>)
        ensures
            r == if self.is_of(site@) {
                Some(site)
            } else {
                None
            },
    {
        match &site.inner {
            Some(inner) => if inner.original_addr == self.slot.original() && inner.replacement
                == self.replacement {
                Some(site)
            } else {
                None
            },
            None => None,
        }
    }

    /// Whether the conservative installed flag of the site is still set.
    #[must_use]
    pub fn is_installed<C>(&self, site: &HookSite<C>) -> (r: bool)
        ensures
            r == (site@ matches Some(inner) && inner.installed),
    {
        match &site.inner {
            Some(inner) => inner.installed,
            None => false,
        }
    }

    /// Explicit restore. Rejects a second attempt: the first confirmed restore
    /// cleared ownership. Only a restore that the swap and the readback confirm
    /// clears the flag; drift and an unconfirmed outcome keep it set and are
    /// reported.
    pub fn restore<C>(&mut self, site: &mut HookSite<C>) -> (r: Result<(), HookError>)
        requires
            old(self).is_of(old(site)@),
            old(site)@->Some_0.installed ==> old(self).may_restore(),
        ensures
            final(self).original() == old(self).original(),
            final(self).replaced_by() == old(self).replaced_by(),
            ({
                let inner = old(site)@->Some_0;
                if !inner.installed {
                    &&& r is Err && r->Err_0 == HookError::OwnershipDrift
                    &&& final(site)@ == old(site)@
                    &&& final(self).source() == old(self).source()
                } else {
                    &&& crate::method_slot::swapped(
                        old(self).source(),
                        final(self).source(),
                        old(self).replaced_by(),
                        old(self).original(),
                        HookError::OwnershipDrift,
                        r,
                    )
                    &&& final(site)@ == Some(SiteInner { installed: r is Err, ..inner })
                }
            }),
    {
        let installed: bool = match &site.inner {
            Some(inner) => inner.installed,
            None => false,
        };
        if !installed {
            return Err(HookError::OwnershipDrift);
        }
        let result = self.slot.restore(self.replacement);
        set_installed(site, result.is_err());
        result
    }

    /// The restore action of the owner ledger. A hook that is not installed
    /// needs nothing; drift is reported as lost ownership; every outcome but a
    /// confirmed one keeps the flag set for a later audit.
    pub fn restore_for_owner<C>(&mut self, site: &mut HookSite<C>) -> (r: Result<(), RestoreError>)
        requires
            old(self).is_of(old(site)@),
            old(site)@->Some_0.installed ==> old(self).may_restore(),
        ensures
            final(self).original() == old(self).original(),
            final(self).replaced_by() == old(self).replaced_by(),
            ({
                let inner = old(site)@->Some_0;
                if !inner.installed {
                    &&& r is Ok
                    &&& final(site)@ == old(site)@
                    &&& final(self).source() == old(self).source()
                } else {
                    &&& exists|outcome: Result<(), HookError>|
                        {
                            &&& #[trigger] crate::method_slot::swapped(
                                old(self).source(),
                                final(self).source(),
                                old(self).replaced_by(),
                                old(self).original(),
                                HookError::OwnershipDrift,
                                outcome,
                            )
                            &&& r == owner_result(outcome)
                        }
                    &&& final(site)@ == Some(SiteInner { installed: r is Err, ..inner })
                }
            }),
    {
        let installed: bool = match &site.inner {
            Some(inner) => inner.installed,
            None => false,
        };
        if !installed {
            return Ok(());
        }
        let ghost before = self.source();
        let swapped = self.slot.restore(self.replacement);
        let ghost outcome = swapped;
        assert(crate::method_slot::swapped(
            before,
            self.source(),
            self.replaced_by(),
            self.original(),
            HookError::OwnershipDrift,
            outcome,
        ));
        let result: Result<(), RestoreError> = match swapped {
            Ok(()) => Ok(()),
            Err(HookError::OwnershipDrift) => Err(RestoreError::OwnershipLost),
            Err(_) => Err(RestoreError::Failed),
        };
        set_installed(site, result.is_err());
        result
    }
}

/// What a restore of the slot means for its owner.
pub open spec fn owner_result(swapped: Result<(), HookError>) -> Result<(), RestoreError> {
    match swapped {
        Ok(_) => Ok(()),
        Err(HookError::OwnershipDrift) => Err(RestoreError::OwnershipLost),
        Err(_) => Err(RestoreError::Failed),
    }
}

fn set_installed<C>(site: &mut HookSite<C>, installed: bool)
    requires
        old(site)@ is Some,
    ensures
        final(site)@ == Some(SiteInner { installed, ..old(site)@->Some_0 }),
{
    if let Some(inner) = site.inner.take() {
        site.inner = Some(SiteInner { installed, ..inner });
    }
}

/// Installing through the new access `memory` on the published site `inner`:
/// one read binds the slot. A word that is missing or null is malformed, and
/// the site stays as it was. Otherwise it is the original: its address is
/// stored, the replacement is swapped in, and the flag is set where the swap
/// is confirmed. `bound` and `last` are the access after the read and in the
/// end.
pub open spec fn slot_installation<M: SlotMemory, C>(
    memory: M,
    bound: M,
    last: M,
    word: Option<usize>,
    inner: SiteInner<C>,
    after: Option<SiteInner<C>>,
    r: Result<InstalledHook<M>, PluginError>,
) -> bool {
    &&& crate::method_slot::accessed(memory, bound, seq![SlotEvent::Read(word)])
    &&& match crate::method_slot::bound_original(word) {
        None => {
            &&& r is Err && r->Err_0 == PluginError::Hook(HookError::SlotMalformed)
            &&& after == Some(inner)
            &&& last == bound
        },
        Some(original) => exists|result: Result<(), HookError>|
            {
                &&& #[trigger] installed_through(bound, last, original, inner.replacement, result)
                &&& match result {
                    Ok(_) => {
                        &&& r is Ok
                        &&& r->Ok_0.source() == last
                        &&& r->Ok_0.original() == original
                        &&& r->Ok_0.replaced_by() == inner.replacement
                        &&& after == Some(
                            SiteInner { original_addr: original, installed: true, ..inner },
                        )
                    },
                    Err(error) => {
                        &&& r is Err && r->Err_0 == PluginError::Hook(error)
                        &&& after == Some(SiteInner { original_addr: original, ..inner })
                    },
                }
            },
    }
}

/// Installing on a published site once the resolver answered and the target's
/// validation said `checked`: only where both are fine is one access to the
/// slot handed out, and the installation goes through it.
pub open spec fn checked_installation<V: MethodResolver, C>(
    resolved: V,
    last: V,
    method: MethodRef,
    checked: Result<(), HookError>,
    inner: SiteInner<C>,
    after: Option<SiteInner<C>>,
    r: Result<InstalledHook<V::Memory>, PluginError>,
) -> bool {
    match checked {
        Err(error) => {
            &&& r is Err && r->Err_0 == PluginError::Hook(error)
            &&& after == Some(inner)
            &&& last == resolved
        },
        Ok(_) => exists|
            memory: V::Memory,
            bound: V::Memory,
            end: V::Memory,
            word: Option<usize>,
        |
            {
                &&& last.log() == resolved.log().push(ResolverEvent::Slot(method, memory))
                &&& last.permitted() == resolved.permitted()
                &&& memory.log() == Seq::<SlotEvent>::empty()
                &&& memory.permitted() == resolved.permitted()
                &&& #[trigger] slot_installation(memory, bound, end, word, inner, after, r)
            },
    }
}

/// Installing on the published site `before` when the resolver is asked for
/// `target` and answers `reply`: a method is validated before anything is done
/// with it.
pub open spec fn target_installation<T: HookTarget, V: MethodResolver, C>(
    target: TargetId,
    reply: Result<MethodRef, HookError>,
    resolver: Option<V>,
    resolved: V,
    asked: Option<V>,
    before: Option<SiteInner<C>>,
    after: Option<SiteInner<C>>,
    r: Result<InstalledHook<V::Memory>, PluginError>,
) -> bool {
    &&& asked is Some
    &&& call_ensures(T::target, (), target)
    &&& crate::backend::resolved(resolver->Some_0, resolved, target@, reply)
    &&& match reply {
        Err(error) => {
            &&& r is Err && r->Err_0 == PluginError::Hook(error)
            &&& after == before
            &&& asked->Some_0 == resolved
        },
        Ok(method) => exists|checked: Result<(), HookError>|
            {
                &&& #[trigger] call_ensures(T::validate, (&method,), checked)
                &&& checked_installation(
                    resolved,
                    asked->Some_0,
                    method,
                    checked,
                    before->Some_0,
                    after,
                    r,
                )
            },
    }
}

/// Installing the target `T` on a site, by what the resolver and the target's
/// validation answer. The resolver is asked for the target once and, where the
/// method is valid, for its slot once.
pub open spec fn installation<T: HookTarget, V: MethodResolver, C>(
    resolver: Option<V>,
    asked: Option<V>,
    before: Option<SiteInner<C>>,
    after: Option<SiteInner<C>>,
    r: Result<InstalledHook<V::Memory>, PluginError>,
) -> bool {
    if before is None {
        &&& r is Err && r->Err_0 == PluginError::Hook(HookError::SiteAlreadyRegistered)
        &&& after == before
        &&& asked == resolver
    } else if resolver is None {
        &&& r is Err && r->Err_0 == PluginError::Message("method resolver unavailable")
        &&& after == before
        &&& asked == resolver
    } else {
        exists|target: TargetId, resolved: V, reply: Result<MethodRef, HookError>| #[trigger]
            target_installation::<T, V, C>(
                target,
                reply,
                resolver,
                resolved,
                asked,
                before,
                after,
                r,
            )
    }
}

/// The resolver's slots may be exchanged as an installation of `replacement`
/// does it, whatever word is bound.
pub open spec fn installable<V: MethodResolver>(resolver: V, replacement: usize) -> bool {
    forall|original: usize|
        original != 0 ==> #[trigger] may_install(
            resolver.permitted(),
            seq![SlotEvent::Read(Some(original))],
            original,
            replacement,
        )
}

impl<C> HookBuilder<C, Published> {
    /// The only installation path. Resolves and validates the target, binds
    /// the slot, swaps the replacement in and confirms it by readback. A failed
    /// readback triggers exactly one ownership-aware rollback attempt.
    pub fn install<T: HookTarget, V: MethodResolver>(
        self,
        site: &mut HookSite<C>,
        resolver: &mut Option<V>,
    ) -> (r: Result<InstalledHook<V::Memory>, PluginError>)
        requires
            old(site)@ is Some && *old(resolver) is Some ==> installable(
                (*old(resolver))->Some_0,
                old(site)@->Some_0.replacement,
            ),
        ensures
            installation::<T, V, C>(*old(resolver), *final(resolver), old(site)@, final(site)@, r),
    {
        let replacement: usize = match &site.inner {
            Some(inner) => inner.replacement,
            None => return Err(PluginError::Hook(HookError::SiteAlreadyRegistered)),
        };
        let mut found: V = match resolver.take() {
            Some(found) => found,
            None => return Err(PluginError::Message("method resolver unavailable")),
        };
        let r = Self::install_with::<T, V>(site, replacement, &mut found);
        *resolver = Some(found);
        r
    }

    fn install_with<T: HookTarget, V: MethodResolver>(
        site: &mut HookSite<C>,
        replacement: usize,
        resolver: &mut V,
    ) -> (r: Result<InstalledHook<V::Memory>, PluginError>)
        requires
            old(site)@ is Some,
            old(site)@->Some_0.replacement == replacement,
            installable(*old(resolver), replacement),
        ensures
            installation::<T, V, C>(
                Some(*old(resolver)),
                Some(*final(resolver)),
                old(site)@,
                final(site)@,
                r,
            ),
    {
        let ghost inner = site@->Some_0;
        let target = T::target();
        assert(call_ensures(T::target, (), target));
        let resolved = resolver.resolve(&target);
        let ghost reply = resolved;
        let ghost answered = *resolver;
        assert(crate::backend::resolved(*old(resolver), answered, target@, reply));
        let method: MethodRef = match resolved {
            Ok(method) => method,
            Err(error) => {
                let failed: Result<InstalledHook<V::Memory>, PluginError> = Err(
                    PluginError::Hook(error),
                );
                assert(target_installation::<T, V, C>(
                    target,
                    reply,
                    Some(*old(resolver)),
                    answered,
                    Some(*resolver),
                    old(site)@,
                    site@,
                    failed,
                ));
                return failed;
            },
        };
        let checked = T::validate(&method);
        let ghost verdict = checked;
        assert(call_ensures(T::validate, (&method,), verdict));
        if let Err(error) = checked {
            let failed: Result<InstalledHook<V::Memory>, PluginError> = Err(
                PluginError::Hook(error),
            );
            assert(checked_installation(
                answered,
                *resolver,
                method,
                verdict,
                inner,
                site@,
                failed,
            ));
            assert(target_installation::<T, V, C>(
                target,
                reply,
                Some(*old(resolver)),
                answered,
                Some(*resolver),
                old(site)@,
                site@,
                failed,
            ));
            return failed;
        }
        let memory = resolver.slot_memory(&method);
        let ghost access = memory;
        let bound = MethodPointerSlot::bind(memory);
        let ghost (read, word) = choose|read: V::Memory, word: Option<usize>| #[trigger]
            crate::method_slot::binding(access, read, word, bound);
        assert(read.log() =~= seq![SlotEvent::Read(word)]);
        let mut slot = match bound {
            Ok(slot) => slot,
            Err(error) => {
                let failed: Result<InstalledHook<V::Memory>, PluginError> = Err(
                    PluginError::Hook(error),
                );
                assert(slot_installation(access, read, read, word, inner, site@, failed));
                assert(target_installation::<T, V, C>(
                    target,
                    reply,
                    Some(*old(resolver)),
                    answered,
                    Some(*resolver),
                    old(site)@,
                    site@,
                    failed,
                ));
                return failed;
            },
        };
        let original: usize = slot.original();
        // The original address is stored before the swap: once the replacement
        // is reachable, dispatch must always be able to call the original.
        set_original(site, original);
        assert(may_install(
            resolver.permitted(),
            seq![SlotEvent::Read(Some(original))],
            original,
            replacement,
        ));
        let installed = install_or_roll_back(&mut slot, replacement);
        let ghost outcome = installed;
        let ghost last = slot.source();
        assert(installed_through(read, last, original, replacement, outcome));
        let r: Result<InstalledHook<V::Memory>, PluginError> = match installed {
            Ok(()) => {
                set_installed(site, true);
                Ok(InstalledHook { slot, replacement })
            },
            Err(error) => Err(PluginError::Hook(error)),
        };
        assert(slot_installation(access, read, last, word, inner, site@, r));
        assert(target_installation::<T, V, C>(
            target,
            reply,
            Some(*old(resolver)),
            answered,
            Some(*resolver),
            old(site)@,
            site@,
            r,
        ));
        r
    }
}

fn set_original<C>(site: &mut HookSite<C>, original_addr: usize)
    requires
        old(site)@ is Some,
    ensures
        final(site)@ == Some(SiteInner { original_addr, ..old(site)@->Some_0 }),
{
    if let Some(inner) = site.inner.take() {
        site.inner = Some(SiteInner { original_addr, ..inner });
    }
}

/// A confirmed installation can always reach the original: its address was
/// captured, so that dispatch never has to fall back for want of it.
pub proof fn installed_site_reaches_original<T: HookTarget, V: MethodResolver, C>(
    resolver: Option<V>,
    asked: Option<V>,
    before: Option<SiteInner<C>>,
    after: Option<SiteInner<C>>,
    r: Result<InstalledHook<V::Memory>, PluginError>,
)
    requires
        installation::<T, V, C>(resolver, asked, before, after, r),
        r is Ok,
    ensures
        before is Some,
        after is Some,
        after->Some_0.installed,
        after->Some_0.original_addr != 0,
        after->Some_0.original_addr == r->Ok_0.original(),
        after->Some_0.container == before->Some_0.container,
{
}

/// A swap that went through and that the readback does not show fails the
/// installation and is answered by exactly one exchange back, from the
/// replacement to the original; any other outcome is left as it is.
pub proof fn unconfirmed_swap_is_rolled_back_once<M: SlotMemory>(
    before: M,
    after: M,
    original: usize,
    replacement: usize,
    result: Result<(), HookError>,
)
    requires
        installed_through(before, after, original, replacement, result),
    ensures
        ({
            let done = before.log().len() as int;
            let unconfirmed = after.log().len() > done + 1 && after.log()[done + 1]
                != SlotEvent::Read(Some(replacement));
            &&& after.log().len() > done
            &&& after.log()[done] matches SlotEvent::Exchange { expected, new, reply }
            &&& expected == original && new == replacement
            &&& unconfirmed ==> reply is Ok
            &&& unconfirmed <==> result == Err::<(), HookError>(HookError::InstallationFailed)
            &&& unconfirmed ==> {
                &&& after.log().len() > done + 2
                &&& after.log()[done + 2] matches SlotEvent::Exchange { expected, new, .. }
                &&& expected == replacement && new == original
            }
            &&& crate::method_slot::exchanges(after.log()) == crate::method_slot::exchanges(
                before.log(),
            ) + if unconfirmed {
                2nat
            } else {
                1nat
            }
        }),
{
    reveal_with_fuel(crate::method_slot::exchanges, 5);
    let (swap, rollback) = choose|swap: Seq<SlotEvent>, rollback: Seq<SlotEvent>|
        {
            &&& #[trigger] install_trace(swap, rollback, original, replacement, result)
            &&& crate::method_slot::accessed(before, after, swap + rollback)
        };
    let done = before.log().len() as int;
    let log = after.log();
    assert(log[done] == swap[0]);
    if swap.len() == 2 {
        assert(log[done + 1] == swap[1]);
    }
    if result == Err::<(), HookError>(HookError::InstallationFailed) {
        assert(log[done + 2] == rollback[0]);
    }
    let steps = swap + rollback;
    if steps.len() == 1 {
        assert(log.drop_last() =~= before.log());
    } else if steps.len() == 2 {
        assert(log.drop_last().drop_last() =~= before.log());
    } else if steps.len() == 3 {
        assert(log.drop_last().drop_last().drop_last() =~= before.log());
    } else {
        assert(log.drop_last().drop_last().drop_last().drop_last() =~= before.log());
    }
}

/// A failed installation leaves the installed flag as it was: a site that was
/// not dispatchable does not become so.
pub proof fn failed_installation_sets_no_flag<T: HookTarget, V: MethodResolver, C>(
    resolver: Option<V>,
    asked: Option<V>,
    before: Option<SiteInner<C>>,
    after: Option<SiteInner<C>>,
    r: Result<InstalledHook<V::Memory>, PluginError>,
)
    requires
        installation::<T, V, C>(resolver, asked, before, after, r),
        r is Err,
    ensures
        before is Some <==> after is Some,
        before is Some ==> after->Some_0.installed == before->Some_0.installed,
{
}

/// Only a method that is exactly a declared target is ever installed on: the
/// resolver handed it out, and it has the identity that the target declares.
pub proof fn only_the_declared_target_is_hooked<T: HookTarget, V: MethodResolver, C>(
    resolver: Option<V>,
    asked: Option<V>,
    before: Option<SiteInner<C>>,
    after: Option<SiteInner<C>>,
    r: Result<InstalledHook<V::Memory>, PluginError>,
)
    requires
        installation::<T, V, C>(resolver, asked, before, after, r),
        r is Ok,
    ensures
        exists|answered: V, wanted: TargetId, method: MethodRef, declared: TargetId|
            {
                &&& call_ensures(T::target, (), wanted)
                &&& #[trigger] crate::backend::resolved(
                    resolver->Some_0,
                    answered,
                    wanted@,
                    Ok(method),
                )
                &&& #[trigger] call_ensures(T::target, (), declared)
                &&& crate::method_slot::is_target(declared@, method)
            },
{
    let first = resolver->Some_0;
    let (wanted, answered, reply) = choose|
        target: TargetId,
        resolved: V,
        reply: Result<MethodRef, HookError>,
    | #[trigger]
        target_installation::<T, V, C>(
            target,
            reply,
            resolver,
            resolved,
            asked,
            before,
            after,
            r,
        );
    let method = reply->Ok_0;
    let checked = choose|checked: Result<(), HookError>|
        {
            &&& #[trigger] call_ensures(T::validate, (&method,), checked)
            &&& checked is Ok
        };
    assert(call_ensures(T::validate, (&method,), checked));
    assert(crate::backend::resolved(first, answered, wanted@, Ok(method)));
}

} // verus!
