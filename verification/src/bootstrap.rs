//! Bootstrap: readiness ladder, application construction, scheduler
//! publication.
//!
//!   1. image identity: pollable, within a bounded deadline;
//!   2. exports: single shot, fail closed;
//!   3. audio middleware completion: pollable, within a bounded deadline;
//!   4. `domain_get`: the probe runs exactly once; null terminates the
//!      bootstrap without retry;
//!   5. attach (detach of this attachment only) and metadata hydration;
//!   6. runtime and layout identity;
//!
//!   then: scheduler target resolution, application build with the production
//!   plugin list, context publication, hook install, handoff.
//!
//! Any failure is a one-shot termination: its runtime gate closes, installed
//! effects roll back and the application that was not handed off is dropped.
//! The ladder says what to do next; its caller does it and reports back.

use vstd::prelude::*;

use crate::backend::{AttachGuard, Il2CppApi, MethodResolver, PlatformEvent, ResolverEvent};
use crate::base::DataRoot;
use crate::config::RuntimeConfig;
use crate::error::{HookError, Il2CppError};
use crate::method_slot::{original_of, MethodRef, SlotEvent, SlotMemory, TargetId, TargetView};

verus! {

/// How long to wait for the image, in milliseconds.
pub const IMAGE_POLL_DEADLINE: u64 = 120_000;

/// How long to wait between two looks for the image, in milliseconds.
pub const IMAGE_POLL_BACKOFF: u64 = 250;

/// Symbol that returns the initialization-complete flag of the audio
/// middleware. The export trie prints a leading underscore; the lookup takes
/// the C name without it.
pub const CRIWARE_UNITY_READY_SYMBOL: &'static str = "CRIWARE2813B966";

/// How long to wait for readiness, in milliseconds.
pub const CRIWARE_POLL_DEADLINE: u64 = 120_000;

/// How long to wait between two readiness polls, in milliseconds.
pub const CRIWARE_POLL_BACKOFF: u64 = 50;

/// Diagnostic-only delay between export loading and the single `domain_get`
/// call, in milliseconds.
pub const TIMING_PROBE_DELAY: u64 = 5_000;

/// What the scheduler target is.
pub open spec fn scheduler_view() -> TargetView {
    TargetView {
        assembly: "UniRx.dll"@,
        namespace: "UniRx"@,
        class: "MainThreadDispatcher"@,
        method: "LateUpdate"@,
        param_count: 0,
        is_static: false,
        return_type: "void"@,
        parameter_types: Seq::empty(),
    }
}

/// The single experiment-validated scheduler target.
pub fn scheduler_target() -> (r: TargetId)
    ensures
        r@ == scheduler_view(),
{
    let parameters: &'static [&'static str] = &[];
    let r = TargetId {
        assembly: "UniRx.dll",
        namespace: "UniRx",
        class: "MainThreadDispatcher",
        method: "LateUpdate",
        param_count: 0,
        is_static: false,
        return_type: "void",
        parameter_types: parameters,
    };
    assert(r@.parameter_types =~= Seq::<Seq<char>>::empty());
    r
}

/// Validated scheduler shape: exactly the scheduler target.
pub fn validate_scheduler_method(method: &MethodRef) -> (r: bool)
    ensures
        r == crate::method_slot::is_target(scheduler_view(), *method),
{
    method.matches_target(&scheduler_target())
}

/// A plugin of the production list.
#[derive(Debug, Clone, Copy, PartialEq, Eq, Structural)]
pub enum ProductionPlugin {
    Debug,
    UnlockFps,
}

impl ProductionPlugin {
    /// Display name used by the inventory and observability events.
    pub open spec fn label(self) -> Seq<char> {
        match self {
            ProductionPlugin::Debug => "debug"@,
            ProductionPlugin::UnlockFps => "unlock_fps"@,
        }
    }

    /// Display name used by the inventory and observability events.
    pub fn name(self) -> (r: &'static str)
        ensures
            r@ == self.label(),
    {
        match self {
            ProductionPlugin::Debug => "debug",
            ProductionPlugin::UnlockFps => "unlock_fps",
        }
    }
}

/// The production plugins that `config` enables, in order.
pub open spec fn enabled_plugins(config: RuntimeConfig) -> Seq<ProductionPlugin> {
    (if config.debug.enabled {
        seq![ProductionPlugin::Debug]
    } else {
        Seq::empty()
    }) + (if config.fps.unlock_fps {
        seq![ProductionPlugin::UnlockFps]
    } else {
        Seq::empty()
    })
}

/// Production plugin list: the debug plugin (where it is enabled) first, then
/// functional plugins in fixed order.
pub fn production_plugins(config: &RuntimeConfig) -> (r: Vec<ProductionPlugin>)
    ensures
        r@ == enabled_plugins(*config),
{
    let mut list: Vec<ProductionPlugin> = Vec::new();
    if config.debug.enabled {
        list.push(ProductionPlugin::Debug);
    }
    if config.fps.unlock_fps {
        list.push(ProductionPlugin::UnlockFps);
    }
    assert(list@ =~= enabled_plugins(*config));
    list
}

/// The debug plugin comes before every other plugin.
pub proof fn debug_plugin_comes_first(config: RuntimeConfig)
    requires
        config.debug.enabled,
    ensures
        enabled_plugins(config).len() > 0,
        enabled_plugins(config)[0] is Debug,
{
}

// ---------------------------------------------------------------------------
// Polling
// ---------------------------------------------------------------------------

/// What to do after one look.
#[derive(Debug)]
pub enum PollStep {
    /// What was looked for is there.
    Ready,
    /// Give up with this error.
    Failed(Il2CppError),
    /// Wait this long (in milliseconds) and look again.
    Sleep(u64),
}

/// What to do after one look for the image.
pub fn image_poll(found: bool, now: u64, deadline_at: u64, backoff: u64) -> (r: PollStep)
    ensures
        r == if found {
            PollStep::Ready
        } else if now >= deadline_at {
            PollStep::Failed(Il2CppError::ImageNotFound)
        } else {
            PollStep::Sleep(backoff)
        },
{
    if found {
        PollStep::Ready
    } else if now >= deadline_at {
        PollStep::Failed(Il2CppError::ImageNotFound)
    } else {
        PollStep::Sleep(backoff)
    }
}

/// What to do after one readiness answer: an error ends the wait, and so does
/// the deadline; otherwise wait, but never beyond the deadline.
pub open spec fn readiness_step(
    ready: Result<bool, Il2CppError>,
    now: u64,
    deadline_at: u64,
    backoff: u64,
) -> PollStep {
    match ready {
        Err(error) => PollStep::Failed(error),
        Ok(true) => PollStep::Ready,
        Ok(false) => if now >= deadline_at {
            PollStep::Failed(Il2CppError::ReadinessDeadlineExceeded)
        } else if backoff < deadline_at - now {
            PollStep::Sleep(backoff)
        } else {
            PollStep::Sleep((deadline_at - now) as u64)
        },
    }
}

/// What to do after one readiness answer.
pub fn readiness_poll(
    ready: Result<bool, Il2CppError>,
    now: u64,
    deadline_at: u64,
    backoff: u64,
) -> (r: PollStep)
    ensures
        r == readiness_step(ready, now, deadline_at, backoff),
{
    match ready {
        Err(error) => PollStep::Failed(error),
        Ok(true) => PollStep::Ready,
        Ok(false) => if now >= deadline_at {
            PollStep::Failed(Il2CppError::ReadinessDeadlineExceeded)
        } else if backoff < deadline_at - now {
            PollStep::Sleep(backoff)
        } else {
            PollStep::Sleep(deadline_at - now)
        },
    }
}

/// A readiness predicate that may be polled before the single `domain_get`
/// probe.
pub trait BootstrapReadiness: Sized {
    /// What it answered so far, in order. An implementation that is not verified
    /// leaves it unsaid.
    closed spec fn log(&self) -> Seq<Result<bool, Il2CppError>> {
        vstd::pervasive::arbitrary()
    }

    fn is_ready(&mut self) -> (r: Result<bool, Il2CppError>)
        ensures
            final(self).log() == old(self).log().push(r),
    ;
}

/// Readiness probe over the exact image. The resolved function reads the
/// completion word of the audio middleware; a missing symbol is target drift
/// and fails closed.
#[derive(Debug)]
pub struct CriWareUnityReadiness {
    /// The outcome of the lookup, once it was made.
    status: Option<Option<usize>>,
}

/// Every address that `lookup` finds for `symbol` can be asked by `query`.
pub open spec fn hits_can_be_queried<
    L: FnOnce(&'static str) -> Option<usize>,
    Q: FnOnce(usize) -> i32,
>(lookup: L, query: Q, symbol: &'static str) -> bool {
    forall|address: usize| #[trigger]
        lookup.ensures((symbol,), Some(address)) ==> query.requires((address,))
}

impl CriWareUnityReadiness {
    /// The outcome of the lookup; `None` before it was made.
    pub closed spec fn looked_up(&self) -> Option<Option<usize>> {
        self.status
    }

    #[must_use]
    pub fn new() -> (r: Self)
        ensures
            r.looked_up() is None,
    {
        CriWareUnityReadiness { status: None }
    }

    /// Asks the probe. `lookup` resolves the symbol, at most once; `query` calls
    /// the function at the address that was found, and at no other.
    pub fn is_ready<L: FnOnce(&'static str) -> Option<usize>, Q: FnOnce(usize) -> i32>(
        &mut self,
        lookup: L,
        query: Q,
    ) -> (r: Result<bool, Il2CppError>)
        requires
            old(self).looked_up() is None ==> lookup.requires((CRIWARE_UNITY_READY_SYMBOL,)),
            old(self).looked_up() matches Some(Some(address)) ==> query.requires((address,)),
            old(self).looked_up() is None ==> hits_can_be_queried(
                lookup,
                query,
                CRIWARE_UNITY_READY_SYMBOL,
            ),
        ensures
            final(self).looked_up() is Some,
            old(self).looked_up() is Some ==> final(self).looked_up() == old(self).looked_up(),
            old(self).looked_up() is None ==> lookup.ensures(
                (CRIWARE_UNITY_READY_SYMBOL,),
                final(self).looked_up()->Some_0,
            ),
            match final(self).looked_up()->Some_0 {
                None => r == Err::<bool, Il2CppError>(
                    Il2CppError::ReadinessSymbolMissing(CRIWARE_UNITY_READY_SYMBOL),
                ),
                Some(address) => exists|status: i32| #[trigger]
                    query.ensures((address,), status) && r == Ok::<bool, Il2CppError>(status != 0),
            },
    {
        let found: Option<usize> = match self.status {
            Some(found) => found,
            None => {
                let found: Option<usize> = lookup(CRIWARE_UNITY_READY_SYMBOL);
                self.status = Some(found);
                found
            },
        };
        match found {
            None => Err(Il2CppError::ReadinessSymbolMissing(CRIWARE_UNITY_READY_SYMBOL)),
            Some(address) => {
                let status: i32 = query(address);
                Ok(status != 0)
            },
        }
    }
}

// ---------------------------------------------------------------------------
// The one-shot ladder
// ---------------------------------------------------------------------------

/// What the ladder waits for.
#[derive(Debug, Clone, Copy, PartialEq, Eq, Structural)]
pub enum Rung {
    /// The identity of the image.
    Image,
    /// The exports.
    Exports,
    /// An answer of the readiness predicate.
    Readiness,
    /// The end of a pause between two readiness polls.
    Pause,
    /// The domain.
    Domain,
    /// The attachment of this thread.
    Attach,
    /// The metadata cache.
    Hydrate,
    /// The runtime and layout identity.
    Identity,
    /// The scheduler method.
    Resolve,
    /// The word in the slot of the scheduler method.
    Bind,
    /// The application, and the publication of the scheduler context.
    Publish,
    /// The installation of the scheduler hook.
    Install,
    /// The handoff of the application.
    Handoff,
    /// Nothing: the bootstrap is over.
    Over,
}

impl Rung {
    /// The place of the rung in the ladder. The two halves of the readiness
    /// wait share one.
    pub open spec fn height(self) -> int {
        match self {
            Rung::Image => 1,
            Rung::Exports => 2,
            Rung::Readiness => 3,
            Rung::Pause => 3,
            Rung::Domain => 4,
            Rung::Attach => 5,
            Rung::Hydrate => 6,
            Rung::Identity => 7,
            Rung::Resolve => 8,
            Rung::Bind => 9,
            Rung::Publish => 10,
            Rung::Install => 11,
            Rung::Handoff => 12,
            Rung::Over => 13,
        }
    }

    /// This thread has an attachment to give back.
    pub open spec fn is_attached(self) -> bool {
        Rung::Attach.height() < self.height() < Rung::Over.height()
    }

    fn attached(self) -> (r: bool)
        ensures
            r == self.is_attached(),
    {
        match self {
            Rung::Hydrate | Rung::Identity | Rung::Resolve | Rung::Bind | Rung::Publish
            | Rung::Install | Rung::Handoff => true,
            _ => false,
        }
    }
}

/// How a bootstrap ends. The flags are carried out in the order of the
/// fields.
#[derive(Debug, Clone, Copy, PartialEq, Eq, Structural)]
pub struct BootstrapEnd {
    /// The runtime gate of this attempt is to be closed.
    pub close_gate: bool,
    /// The application is to be torn down, in reverse owner order, and dropped.
    pub tear_down: bool,
    /// The attachment of this thread is to be given back.
    pub release: bool,
    /// The application was published and the scheduler hook installed.
    pub published: bool,
}

/// What to do next.
#[derive(Debug, Clone, Copy, PartialEq, Eq, Structural)]
pub enum BootstrapAction {
    QueryImage,
    LoadExports,
    PollReadiness,
    /// Wait this many milliseconds.
    Sleep(u64),
    GetDomain,
    AttachThread,
    HydrateMetadata,
    CheckIdentity,
    ResolveScheduler,
    ReadSlot,
    /// Build the application with the production plugins, and publish the
    /// scheduler context with this captured original of the scheduler method.
    PublishContext(usize),
    InstallHook,
    PublishHandoff,
    Finish(BootstrapEnd),
}

/// What came of it.
#[derive(Debug)]
pub enum BootstrapEvent {
    /// A single-shot step succeeded, or failed, at this time.
    Reply(bool, u64),
    /// The readiness predicate answered at this time.
    Ready(Result<bool, Il2CppError>, u64),
    /// The pause is over.
    Slept,
    /// The resolver answered for the scheduler target.
    Scheduler(Result<MethodRef, HookError>),
    /// The slot of the scheduler method was read.
    SlotWord(Option<usize>),
}

/// The one-shot bootstrap. Times are in milliseconds on a monotonic clock.
#[derive(Debug, Clone, Copy, PartialEq, Eq, Structural)]
pub struct Bootstrap {
    pub rung: Rung,
    /// How long to wait for readiness.
    pub deadline: u64,
    /// How long to wait between two polls.
    pub backoff: u64,
    /// When the wait for readiness ends.
    pub deadline_at: u64,
}

/// A failure before the application exists: the runtime gate is closed.
pub open spec fn failed_at(rung: Rung) -> BootstrapEnd {
    BootstrapEnd {
        close_gate: true,
        tear_down: false,
        release: rung.is_attached(),
        published: false,
    }
}

/// A single-shot step that came out well leads to `rung` and `action`; one
/// that did not ends the bootstrap.
pub open spec fn climbed(
    state: Bootstrap,
    succeeded: bool,
    rung: Rung,
    action: BootstrapAction,
) -> (Bootstrap, BootstrapAction) {
    if succeeded {
        (Bootstrap { rung, ..state }, action)
    } else {
        (Bootstrap { rung: Rung::Over, ..state }, BootstrapAction::Finish(failed_at(state.rung)))
    }
}

/// The end of the bootstrap at its last rungs, where an application exists.
pub open spec fn finished(state: Bootstrap, end: BootstrapEnd) -> (Bootstrap, BootstrapAction) {
    (Bootstrap { rung: Rung::Over, ..state }, BootstrapAction::Finish(end))
}

impl Bootstrap {
    /// `event` answers what the ladder waits for.
    pub open spec fn expects(self, event: BootstrapEvent) -> bool {
        match self.rung {
            Rung::Over => false,
            Rung::Readiness => event is Ready,
            Rung::Pause => event is Slept,
            Rung::Resolve => event is Scheduler,
            Rung::Bind => event is SlotWord,
            Rung::Exports => event is Reply && event->Reply_1 + self.deadline <= u64::MAX,
            _ => event is Reply,
        }
    }

    /// The state and the action after `event`.
    pub open spec fn step(self, event: BootstrapEvent) -> (Bootstrap, BootstrapAction) {
        let ok = event is Reply && event->Reply_0;
        match self.rung {
            Rung::Image => climbed(self, ok, Rung::Exports, BootstrapAction::LoadExports),
            Rung::Exports => climbed(
                Bootstrap { deadline_at: (event->Reply_1 + self.deadline) as u64, ..self },
                ok,
                Rung::Readiness,
                BootstrapAction::PollReadiness,
            ),
            Rung::Readiness => match readiness_step(
                event->Ready_0,
                event->Ready_1,
                self.deadline_at,
                self.backoff,
            ) {
                PollStep::Ready => climbed(self, true, Rung::Domain, BootstrapAction::GetDomain),
                PollStep::Sleep(pause) => climbed(
                    self,
                    true,
                    Rung::Pause,
                    BootstrapAction::Sleep(pause),
                ),
                PollStep::Failed(_) => climbed(
                    self,
                    false,
                    Rung::Over,
                    BootstrapAction::GetDomain,
                ),
            },
            Rung::Pause => climbed(self, true, Rung::Readiness, BootstrapAction::PollReadiness),
            Rung::Domain => climbed(self, ok, Rung::Attach, BootstrapAction::AttachThread),
            Rung::Attach => climbed(self, ok, Rung::Hydrate, BootstrapAction::HydrateMetadata),
            Rung::Hydrate => climbed(self, ok, Rung::Identity, BootstrapAction::CheckIdentity),
            Rung::Identity => climbed(self, ok, Rung::Resolve, BootstrapAction::ResolveScheduler),
            Rung::Resolve => climbed(
                self,
                event->Scheduler_0 is Ok && crate::method_slot::is_target(
                    scheduler_view(),
                    event->Scheduler_0->Ok_0,
                ),
                Rung::Bind,
                BootstrapAction::ReadSlot,
            ),
            Rung::Bind => {
                let original = crate::method_slot::bound_original(event->SlotWord_0);
                climbed(
                    self,
                    original is Some,
                    Rung::Publish,
                    BootstrapAction::PublishContext(original->Some_0),
                )
            },
            Rung::Publish => if ok {
                climbed(self, true, Rung::Install, BootstrapAction::InstallHook)
            } else {
                finished(
                    self,
                    BootstrapEnd {
                        close_gate: false,
                        tear_down: true,
                        release: true,
                        published: false,
                    },
                )
            },
            Rung::Install => if ok {
                climbed(self, true, Rung::Handoff, BootstrapAction::PublishHandoff)
            } else {
                finished(
                    self,
                    BootstrapEnd {
                        close_gate: true,
                        tear_down: true,
                        release: true,
                        published: false,
                    },
                )
            },
            Rung::Handoff => finished(
                self,
                BootstrapEnd { close_gate: !ok, tear_down: !ok, release: true, published: ok },
            ),
            Rung::Over => finished(self, failed_at(Rung::Over)),
        }
    }

    /// The state after `events`.
    pub open spec fn after(self, events: Seq<BootstrapEvent>) -> Bootstrap
        decreases events.len(),
    {
        if events.len() == 0 {
            self
        } else {
            self.after(events.drop_last()).step(events.last()).0
        }
    }

    /// The action after `events`, of which there is at least one.
    pub open spec fn action_after(self, events: Seq<BootstrapEvent>) -> BootstrapAction {
        self.after(events.drop_last()).step(events.last()).1
    }

    /// Each of `events` answers what the ladder waited for.
    pub open spec fn accepts(self, events: Seq<BootstrapEvent>) -> bool
        decreases events.len(),
    {
        events.len() > 0 ==> self.accepts(events.drop_last()) && self.after(
            events.drop_last(),
        ).expects(events.last())
    }

    fn fail(&mut self) -> (r: BootstrapAction)
        ensures
            (*final(self), r) == climbed(*old(self), false, Rung::Over, BootstrapAction::GetDomain),
    {
        let end = BootstrapEnd {
            close_gate: true,
            tear_down: false,
            release: self.rung.attached(),
            published: false,
        };
        self.rung = Rung::Over;
        BootstrapAction::Finish(end)
    }

    fn climb(&mut self, succeeded: bool, rung: Rung, action: BootstrapAction) -> (r:
        BootstrapAction)
        ensures
            (*final(self), r) == climbed(*old(self), succeeded, rung, action),
    {
        if succeeded {
            self.rung = rung;
            action
        } else {
            self.fail()
        }
    }

    fn finish(&mut self, end: BootstrapEnd) -> (r: BootstrapAction)
        ensures
            (*final(self), r) == finished(*old(self), end),
    {
        self.rung = Rung::Over;
        BootstrapAction::Finish(end)
    }

    /// Takes in what came of the last action and says what to do next.
    pub fn next(&mut self, event: BootstrapEvent) -> (r: BootstrapAction)
        requires
            old(self).expects(event),
        ensures
            (*final(self), r) == old(self).step(event),
    {
        match event {
            BootstrapEvent::Reply(ok, now) => self.reply(ok, now),
            BootstrapEvent::Ready(ready, now) => {
                match readiness_poll(ready, now, self.deadline_at, self.backoff) {
                    PollStep::Ready => self.climb(true, Rung::Domain, BootstrapAction::GetDomain),
                    PollStep::Sleep(pause) => self.climb(
                        true,
                        Rung::Pause,
                        BootstrapAction::Sleep(pause),
                    ),
                    PollStep::Failed(_) => self.fail(),
                }
            },
            BootstrapEvent::Slept => self.climb(
                true,
                Rung::Readiness,
                BootstrapAction::PollReadiness,
            ),
            BootstrapEvent::Scheduler(reply) => {
                let valid: bool = match &reply {
                    Ok(method) => validate_scheduler_method(method),
                    Err(_) => false,
                };
                self.climb(valid, Rung::Bind, BootstrapAction::ReadSlot)
            },
            BootstrapEvent::SlotWord(word) => match original_of(word) {
                Ok(original) => self.climb(
                    true,
                    Rung::Publish,
                    BootstrapAction::PublishContext(original),
                ),
                Err(_) => self.fail(),
            },
        }
    }

    fn reply(&mut self, ok: bool, now: u64) -> (r: BootstrapAction)
        requires
            old(self).expects(BootstrapEvent::Reply(ok, now)),
        ensures
            (*final(self), r) == old(self).step(BootstrapEvent::Reply(ok, now)),
    {
        match self.rung {
            Rung::Image => self.climb(ok, Rung::Exports, BootstrapAction::LoadExports),
            Rung::Exports => {
                self.deadline_at = now + self.deadline;
                self.climb(ok, Rung::Readiness, BootstrapAction::PollReadiness)
            },
            Rung::Domain => self.climb(ok, Rung::Attach, BootstrapAction::AttachThread),
            Rung::Attach => self.climb(ok, Rung::Hydrate, BootstrapAction::HydrateMetadata),
            Rung::Hydrate => self.climb(ok, Rung::Identity, BootstrapAction::CheckIdentity),
            Rung::Identity => self.climb(ok, Rung::Resolve, BootstrapAction::ResolveScheduler),
            Rung::Publish => if ok {
                self.climb(true, Rung::Install, BootstrapAction::InstallHook)
            } else {
                // The published context, and its gate, belong to the first
                // bootstrap; the runtime gate of this attempt never became the
                // process gate.
                self.finish(
                    BootstrapEnd {
                        close_gate: false,
                        tear_down: true,
                        release: true,
                        published: false,
                    },
                )
            },
            Rung::Install => if ok {
                self.climb(true, Rung::Handoff, BootstrapAction::PublishHandoff)
            } else {
                self.finish(
                    BootstrapEnd {
                        close_gate: true,
                        tear_down: true,
                        release: true,
                        published: false,
                    },
                )
            },
            _ => self.finish(
                BootstrapEnd { close_gate: !ok, tear_down: !ok, release: true, published: ok },
            ),
        }
    }
}

/// The ladder from its foot.
pub open spec fn foot(deadline: u64, backoff: u64) -> Bootstrap {
    Bootstrap { rung: Rung::Image, deadline, backoff, deadline_at: 0 }
}

/// Begins the one-shot bootstrap, with the readiness wait of production:
/// the ladder, and the first thing to do.
pub fn run_bootstrap() -> (r: (Bootstrap, BootstrapAction))
    ensures
        r.0 == foot(CRIWARE_POLL_DEADLINE, CRIWARE_POLL_BACKOFF),
        r.1 == BootstrapAction::QueryImage,
{
    run_bootstrap_with_readiness_wait(CRIWARE_POLL_DEADLINE, CRIWARE_POLL_BACKOFF)
}

/// Begins the one-shot bootstrap with a readiness wait of the caller's choice.
pub fn run_bootstrap_with_readiness_wait(
    readiness_deadline: u64,
    readiness_backoff: u64,
) -> (r: (Bootstrap, BootstrapAction))
    ensures
        r.0 == foot(readiness_deadline, readiness_backoff),
        r.1 == BootstrapAction::QueryImage,
{
    (
        Bootstrap {
            rung: Rung::Image,
            deadline: readiness_deadline,
            backoff: readiness_backoff,
            deadline_at: 0,
        },
        BootstrapAction::QueryImage,
    )
}

// ---------------------------------------------------------------------------
// What the ladder asks of the platform
// ---------------------------------------------------------------------------

/// What a bootstrap runs on.
pub struct BootstrapDeps<A, R, V> {
    pub api: A,
    pub readiness: R,
    pub resolver: V,
    pub data_root: DataRoot,
    /// Typed configuration, already fail-closed.
    pub config: RuntimeConfig,
}

impl<A, R, V> BootstrapDeps<A, R, V> {
    pub fn new(api: A, readiness: R, resolver: V, data_root: DataRoot, config: RuntimeConfig) -> (r:
        Self)
        ensures
            r.api == api,
            r.readiness == readiness,
            r.resolver == resolver,
            r.data_root == data_root,
            r.config == config,
    {
        BootstrapDeps { api, readiness, resolver, data_root, config }
    }
}

/// `call` is the platform call that `action` stands for.
pub open spec fn is_call(action: BootstrapAction, call: PlatformEvent) -> bool {
    match action {
        BootstrapAction::QueryImage => call is Image,
        BootstrapAction::LoadExports => call is Exports,
        BootstrapAction::GetDomain => call is Domain,
        BootstrapAction::AttachThread => call is Attach,
        BootstrapAction::HydrateMetadata => call is Hydrate,
        BootstrapAction::CheckIdentity => call is Identity,
        _ => false,
    }
}

/// The call succeeded.
pub open spec fn succeeded(call: PlatformEvent) -> bool {
    match call {
        PlatformEvent::Image(r) => r is Ok,
        PlatformEvent::Exports(r) => r is Ok,
        PlatformEvent::Domain(r) => r is Ok,
        PlatformEvent::Attach(r) => r is Ok,
        PlatformEvent::Hydrate(r) => r is Ok,
        PlatformEvent::Identity(r) => r is Ok,
    }
}

/// The attachment that the call made.
pub open spec fn attachment(call: PlatformEvent) -> Option<AttachGuard> {
    match call {
        PlatformEvent::Attach(Ok(guard)) => Some(guard),
        _ => None,
    }
}

/// Nothing but the platform of `before` was asked to get to `after`.
pub open spec fn only_platform_asked<A, R, V>(
    before: BootstrapDeps<A, R, V>,
    after: BootstrapDeps<A, R, V>,
) -> bool {
    after == (BootstrapDeps { api: after.api, ..before })
}

/// The platform was asked for the one call that `action` stands for, once, and
/// `event` and `guard` report its answer.
pub open spec fn called<A: Il2CppApi, R, V>(
    before: BootstrapDeps<A, R, V>,
    after: BootstrapDeps<A, R, V>,
    action: BootstrapAction,
    event: BootstrapEvent,
    guard: Option<AttachGuard>,
) -> bool {
    &&& only_platform_asked(before, after)
    &&& exists|call: PlatformEvent|
        {
            &&& #[trigger] is_call(action, call)
            &&& after.api.log() == before.api.log().push(call)
            &&& event is Reply && event->Reply_0 == succeeded(call)
            &&& guard == attachment(call)
        }
}

impl<A: Il2CppApi, R, V> BootstrapDeps<A, R, V> {
    /// Makes the one platform call that a single-shot rung asks for, once, and
    /// reports it as of the time at which its answer was in. An attachment is
    /// handed out.
    pub fn call<C: FnOnce() -> u64>(&mut self, action: BootstrapAction, clock: C) -> (r: (
        BootstrapEvent,
        Option<AttachGuard>,
    ))
        requires
            action is QueryImage || action is LoadExports || action is GetDomain
                || action is AttachThread || action is HydrateMetadata || action is CheckIdentity,
            clock.requires(()),
        ensures
            called(*old(self), *final(self), action, r.0, r.1),
            clock.ensures((), r.0->Reply_1),
    {
        let ghost mut call: PlatformEvent = vstd::pervasive::arbitrary();
        let (ok, guard): (bool, Option<AttachGuard>) = match action {
            BootstrapAction::QueryImage => {
                let reply = self.api.unity_framework_image();
                proof {
                    call = PlatformEvent::Image(reply);
                }
                (reply.is_ok(), None)
            },
            BootstrapAction::LoadExports => {
                let reply = self.api.load_exports();
                proof {
                    call = PlatformEvent::Exports(reply);
                }
                (reply.is_ok(), None)
            },
            BootstrapAction::GetDomain => {
                let reply = self.api.domain_get();
                proof {
                    call = PlatformEvent::Domain(reply);
                }
                (reply.is_ok(), None)
            },
            BootstrapAction::AttachThread => {
                let reply = self.api.attach_current_thread();
                proof {
                    call = PlatformEvent::Attach(reply);
                }
                match reply {
                    Ok(guard) => (true, Some(guard)),
                    Err(_) => (false, None),
                }
            },
            BootstrapAction::HydrateMetadata => {
                let reply = self.api.hydrate_metadata();
                proof {
                    call = PlatformEvent::Hydrate(reply);
                }
                (reply.is_ok(), None)
            },
            _ => {
                let reply = self.api.runtime_identity();
                proof {
                    call = PlatformEvent::Identity(reply);
                }
                (reply.is_ok(), None)
            },
        };
        assert(is_call(action, call));
        let now: u64 = clock();
        (BootstrapEvent::Reply(ok, now), guard)
    }
}

/// The readiness predicate, and nothing else, was asked once.
pub open spec fn polled<A, R: BootstrapReadiness, V>(
    before: BootstrapDeps<A, R, V>,
    after: BootstrapDeps<A, R, V>,
    event: BootstrapEvent,
) -> bool {
    &&& after == (BootstrapDeps { readiness: after.readiness, ..before })
    &&& event is Ready
    &&& after.readiness.log() == before.readiness.log().push(event->Ready_0)
}

impl<A, R: BootstrapReadiness, V> BootstrapDeps<A, R, V> {
    /// Asks the readiness predicate once and reports its answer as of the time
    /// at which it was in.
    pub fn poll_readiness<C: FnOnce() -> u64>(&mut self, clock: C) -> (r: BootstrapEvent)
        requires
            clock.requires(()),
        ensures
            polled(*old(self), *final(self), r),
            clock.ensures((), r->Ready_1),
    {
        let ready = self.readiness.is_ready();
        let now: u64 = clock();
        BootstrapEvent::Ready(ready, now)
    }
}

/// The resolver, and nothing else, was asked once for the scheduler target.
pub open spec fn scheduler_resolved<A, R, V: MethodResolver>(
    before: BootstrapDeps<A, R, V>,
    after: BootstrapDeps<A, R, V>,
    event: BootstrapEvent,
) -> bool {
    &&& after == (BootstrapDeps { resolver: after.resolver, ..before })
    &&& event is Scheduler
    &&& crate::backend::resolved(
        before.resolver,
        after.resolver,
        scheduler_view(),
        event->Scheduler_0,
    )
}

/// The resolver, and nothing else, was asked once for the slot of `method`, and
/// that slot was read once and not written.
pub open spec fn slot_read<A, R, V: MethodResolver>(
    before: BootstrapDeps<A, R, V>,
    after: BootstrapDeps<A, R, V>,
    method: MethodRef,
    event: BootstrapEvent,
) -> bool {
    &&& after == (BootstrapDeps { resolver: after.resolver, ..before })
    &&& event is SlotWord
    &&& exists|memory: V::Memory, read: V::Memory|
        {
            &&& after.resolver.log() == before.resolver.log().push(
                ResolverEvent::Slot(method, memory),
            )
            &&& #[trigger] crate::method_slot::accessed(
                memory,
                read,
                seq![SlotEvent::Read(event->SlotWord_0)],
            )
        }
}

impl<A, R, V: MethodResolver> BootstrapDeps<A, R, V> {
    /// Resolves the scheduler target.
    pub fn resolve_scheduler(&mut self) -> (r: BootstrapEvent)
        ensures
            scheduler_resolved(*old(self), *final(self), r),
    {
        let target = scheduler_target();
        let reply = self.resolver.resolve(&target);
        BootstrapEvent::Scheduler(reply)
    }

    /// Reads the slot of the resolved scheduler method.
    pub fn read_slot(&mut self, method: &MethodRef) -> (r: BootstrapEvent)
        ensures
            slot_read(*old(self), *final(self), *method, r),
    {
        let mut memory = self.resolver.slot_memory(method);
        let ghost access = memory;
        let word: Option<usize> = memory.read();
        assert(crate::method_slot::accessed(access, memory, seq![SlotEvent::Read(word)]));
        BootstrapEvent::SlotWord(word)
    }
}

// ---------------------------------------------------------------------------
// Laws of the ladder
// ---------------------------------------------------------------------------

proof fn prefix_accepted(start: Bootstrap, events: Seq<BootstrapEvent>, i: int)
    requires
        start.accepts(events),
        0 <= i <= events.len(),
    ensures
        start.accepts(events.take(i)),
    decreases events.len(),
{
    if i == events.len() {
        assert(events.take(i) =~= events);
    } else {
        prefix_accepted(start, events.drop_last(), i);
        assert(events.drop_last().take(i) =~= events.take(i));
    }
}

/// The ladder is never climbed down: the rung after more events is no lower.
pub proof fn ladder_only_climbs(start: Bootstrap, events: Seq<BootstrapEvent>, i: int)
    requires
        start.accepts(events),
        0 <= i <= events.len(),
    ensures
        start.after(events.take(i)).rung.height() <= start.after(events).rung.height(),
    decreases events.len(),
{
    if i == events.len() {
        assert(events.take(i) =~= events);
    } else {
        ladder_only_climbs(start, events.drop_last(), i);
        assert(events.drop_last().take(i) =~= events.take(i));
    }
}

/// No IL2CPP call before readiness: wherever the ladder stands above the
/// readiness wait without having failed, the readiness predicate has answered
/// that it is ready.
pub proof fn readiness_comes_first(deadline: u64, backoff: u64, events: Seq<BootstrapEvent>)
    requires
        foot(deadline, backoff).accepts(events),
        foot(deadline, backoff).after(events).rung.height() > Rung::Readiness.height(),
        foot(deadline, backoff).after(events).rung !is Over,
    ensures
        exists|i: int|
            0 <= i < events.len() && #[trigger] events[i] is Ready && events[i]->Ready_0 == Ok::<
                bool,
                Il2CppError,
            >(true),
    decreases events.len(),
{
    let start = foot(deadline, backoff);
    let before = events.drop_last();
    if start.after(before).rung.height() > Rung::Readiness.height() {
        readiness_comes_first(deadline, backoff, before);
        let i = choose|i: int|
            0 <= i < before.len() && #[trigger] before[i] is Ready && before[i]->Ready_0 == Ok::<
                bool,
                Il2CppError,
            >(true);
        assert(events[i] == before[i]);
    } else {
        assert(events[events.len() - 1] == events.last());
        assert(events.last() is Ready);
    }
}

/// The domain probe runs at most once: of all actions that a run takes, at
/// most one is the probe.
pub proof fn domain_is_probed_once(
    deadline: u64,
    backoff: u64,
    events: Seq<BootstrapEvent>,
    i: int,
    j: int,
)
    requires
        foot(deadline, backoff).accepts(events),
        0 < i < j <= events.len(),
        foot(deadline, backoff).action_after(events.take(i)) is GetDomain,
    ensures
        foot(deadline, backoff).action_after(events.take(j)) !is GetDomain,
{
    let start = foot(deadline, backoff);
    prefix_accepted(start, events, i);
    prefix_accepted(start, events, j);
    let last = events.take(j);
    prefix_accepted(start, last, j - 1);
    assert(last.take(j - 1) =~= last.drop_last());
    assert(last.drop_last().take(i) =~= events.take(i));
    ladder_only_climbs(start, last.drop_last(), i);
    assert(start.after(events.take(i)).rung is Domain);
}

/// A bootstrap that fails closes its gate, but for one that found the context
/// of an earlier bootstrap published; and whichever way it ends after the
/// application was built, the application is either published or torn down.
pub proof fn failure_closes_the_gate(state: Bootstrap, event: BootstrapEvent)
    requires
        state.expects(event),
    ensures
        state.step(event).1 matches BootstrapAction::Finish(end) ==> {
            &&& end.close_gate <==> !end.published && state.rung !is Publish
            &&& end.tear_down <==> !end.published && state.rung.height()
                >= Rung::Publish.height()
            &&& end.release <==> state.rung.is_attached()
            &&& end.published ==> state.rung is Handoff
        },
        state.step(event).1 is Finish <==> state.step(event).0.rung is Over,
{
}

/// What a published bootstrap rests on: the exact scheduler method, a slot
/// that held a code pointer, and readiness.
pub proof fn published_rests_on_the_exact_target(
    deadline: u64,
    backoff: u64,
    events: Seq<BootstrapEvent>,
)
    requires
        foot(deadline, backoff).accepts(events),
        foot(deadline, backoff).after(events).rung.height() > Rung::Bind.height(),
        foot(deadline, backoff).after(events).rung !is Over,
    ensures
        exists|i: int|
            0 <= i < events.len() && #[trigger] resolved_exactly(events[i]),
        exists|i: int|
            0 <= i < events.len() && #[trigger] bound_code_pointer(events[i]),
    decreases events.len(),
{
    let start = foot(deadline, backoff);
    let before = events.drop_last();
    if start.after(before).rung.height() > Rung::Bind.height() {
        published_rests_on_the_exact_target(deadline, backoff, before);
        let i = choose|i: int| 0 <= i < before.len() && #[trigger] resolved_exactly(before[i]);
        let j = choose|j: int| 0 <= j < before.len() && #[trigger] bound_code_pointer(before[j]);
        assert(resolved_exactly(events[i]));
        assert(bound_code_pointer(events[j]));
    } else {
        assert(bound_code_pointer(events[events.len() - 1]));
        resolved_before_bind(deadline, backoff, before);
        let i = choose|i: int| 0 <= i < before.len() && #[trigger] resolved_exactly(before[i]);
        assert(resolved_exactly(events[i]));
    }
}

/// The resolver handed out exactly the scheduler method.
pub open spec fn resolved_exactly(event: BootstrapEvent) -> bool {
    &&& event is Scheduler
    &&& event->Scheduler_0 is Ok
    &&& crate::method_slot::is_target(scheduler_view(), event->Scheduler_0->Ok_0)
}

/// The slot held a code pointer.
pub open spec fn bound_code_pointer(event: BootstrapEvent) -> bool {
    event is SlotWord && crate::method_slot::bound_original(event->SlotWord_0) is Some
}

proof fn resolved_before_bind(deadline: u64, backoff: u64, events: Seq<BootstrapEvent>)
    requires
        foot(deadline, backoff).accepts(events),
        foot(deadline, backoff).after(events).rung is Bind,
    ensures
        exists|i: int| 0 <= i < events.len() && #[trigger] resolved_exactly(events[i]),
{
    assert(resolved_exactly(events[events.len() - 1]));
}

/// The place of an action in the ladder.
pub open spec fn order(action: BootstrapAction) -> int {
    match action {
        BootstrapAction::QueryImage => 1,
        BootstrapAction::LoadExports => 2,
        BootstrapAction::PollReadiness => 3,
        BootstrapAction::Sleep(_) => 3,
        BootstrapAction::GetDomain => 4,
        BootstrapAction::AttachThread => 5,
        BootstrapAction::HydrateMetadata => 6,
        BootstrapAction::CheckIdentity => 7,
        BootstrapAction::ResolveScheduler => 8,
        BootstrapAction::ReadSlot => 9,
        BootstrapAction::PublishContext(_) => 10,
        BootstrapAction::InstallHook => 11,
        BootstrapAction::PublishHandoff => 12,
        BootstrapAction::Finish(_) => 13,
    }
}

/// The action that is taken after `events`, from the foot of the ladder on.
pub open spec fn asked(start: Bootstrap, events: Seq<BootstrapEvent>) -> BootstrapAction {
    if events.len() == 0 {
        BootstrapAction::QueryImage
    } else {
        start.action_after(events)
    }
}

/// `event` is what carrying out `action` on `before` after `past` came to: what
/// was asked of the platform, the readiness predicate and the resolver is
/// exactly what the action stands for, and the slot that is read is that of
/// the resolved method.
pub open spec fn carried_out<A: Il2CppApi, R: BootstrapReadiness, V: MethodResolver>(
    before: BootstrapDeps<A, R, V>,
    after: BootstrapDeps<A, R, V>,
    past: Seq<BootstrapEvent>,
    action: BootstrapAction,
    event: BootstrapEvent,
) -> bool {
    match action {
        BootstrapAction::QueryImage
        | BootstrapAction::LoadExports
        | BootstrapAction::GetDomain
        | BootstrapAction::AttachThread
        | BootstrapAction::HydrateMetadata
        | BootstrapAction::CheckIdentity => exists|guard: Option<AttachGuard>| #[trigger]
            called(before, after, action, event, guard),
        BootstrapAction::PollReadiness => polled(before, after, event),
        BootstrapAction::ResolveScheduler => scheduler_resolved(before, after, event),
        BootstrapAction::ReadSlot => {
            &&& past.len() > 0
            &&& past.last() matches BootstrapEvent::Scheduler(Ok(method))
            &&& slot_read(before, after, method, event)
        },
        _ => after.api == before.api && after.readiness == before.readiness,
    }
}

/// Every action of the run was carried out, one after the other: `states` are
/// the objects it runs on, before each event and in the end.
pub open spec fn driven<A: Il2CppApi, R: BootstrapReadiness, V: MethodResolver>(
    states: Seq<BootstrapDeps<A, R, V>>,
    start: Bootstrap,
    events: Seq<BootstrapEvent>,
) -> bool {
    &&& start.accepts(events)
    &&& states.len() == events.len() + 1
    &&& forall|i: int|
        0 <= i < events.len() ==> carried_out(
            states[i],
            states[i + 1],
            events.take(i),
            asked(start, events.take(i)),
            #[trigger] events[i],
        )
}

/// What ends a bootstrap wherever it comes: a step that failed, a readiness
/// predicate that failed, a target that is missing or not the exact one, and a
/// slot without a code pointer.
pub open spec fn is_failure(event: BootstrapEvent) -> bool {
    match event {
        BootstrapEvent::Reply(ok, _) => !ok,
        BootstrapEvent::Ready(ready, _) => ready is Err,
        BootstrapEvent::Slept => false,
        BootstrapEvent::Scheduler(_) => !resolved_exactly(event),
        BootstrapEvent::SlotWord(_) => !bound_code_pointer(event),
    }
}

proof fn action_fits_rung(deadline: u64, backoff: u64, events: Seq<BootstrapEvent>)
    requires
        foot(deadline, backoff).accepts(events),
    ensures
        order(asked(foot(deadline, backoff), events)) == foot(deadline, backoff).after(
            events,
        ).rung.height(),
{
}

proof fn lone_rungs_are_left(deadline: u64, backoff: u64, events: Seq<BootstrapEvent>, i: int, j: int)
    requires
        foot(deadline, backoff).accepts(events),
        0 <= i < j <= events.len(),
    ensures
        ({
            let low = foot(deadline, backoff).after(events.take(i)).rung.height();
            let high = foot(deadline, backoff).after(events.take(j)).rung.height();
            low < high || low == high == Rung::Readiness.height()
        }),
        j < events.len() ==> !is_failure(events[i]),
    decreases j,
{
    let start = foot(deadline, backoff);
    prefix_accepted(start, events, i);
    prefix_accepted(start, events, i + 1);
    prefix_accepted(start, events, j);
    assert(events.take(i + 1).drop_last() =~= events.take(i));
    assert(events.take(i + 1).last() == events[i]);
    ladder_only_climbs(start, events.take(j), i + 1);
    assert(events.take(j).take(i + 1) =~= events.take(i + 1));
    if j < events.len() {
        prefix_accepted(start, events, j + 1);
        assert(events.take(j + 1).drop_last() =~= events.take(j));
    }
}

/// The actions come in the order of the ladder: the image, the exports, the
/// readiness predicate until it is ready, the domain, the attachment, the
/// metadata, the identity, the scheduler target and then its slot. Only the
/// readiness wait repeats, and nothing follows a failure.
pub proof fn actions_come_in_ladder_order<
    A: Il2CppApi,
    R: BootstrapReadiness,
    V: MethodResolver,
>(
    states: Seq<BootstrapDeps<A, R, V>>,
    deadline: u64,
    backoff: u64,
    events: Seq<BootstrapEvent>,
    i: int,
    j: int,
)
    requires
        driven(states, foot(deadline, backoff), events),
        0 <= i < j < events.len(),
    ensures
        ({
            let first = asked(foot(deadline, backoff), events.take(i));
            let second = asked(foot(deadline, backoff), events.take(j));
            &&& carried_out(states[i], states[i + 1], events.take(i), first, events[i])
            &&& carried_out(states[j], states[j + 1], events.take(j), second, events[j])
            &&& order(first) < order(second) || order(first) == order(second) == 3
            &&& !is_failure(events[i])
        }),
{
    let start = foot(deadline, backoff);
    prefix_accepted(start, events, i);
    prefix_accepted(start, events, j);
    action_fits_rung(deadline, backoff, events.take(i));
    action_fits_rung(deadline, backoff, events.take(j));
    lone_rungs_are_left(deadline, backoff, events, i, j);
}

/// The place of a platform call in the ladder.
pub open spec fn rank(call: PlatformEvent) -> int {
    match call {
        PlatformEvent::Image(_) => 1,
        PlatformEvent::Exports(_) => 2,
        PlatformEvent::Domain(_) => 4,
        PlatformEvent::Attach(_) => 5,
        PlatformEvent::Hydrate(_) => 6,
        PlatformEvent::Identity(_) => 7,
    }
}

/// `calls` come in the order of the ladder, each at most once, all below
/// `height`; only the last of them can have failed.
pub open spec fn climbs(calls: Seq<PlatformEvent>, height: int) -> bool {
    &&& forall|i: int, j: int|
        0 <= i < j < calls.len() ==> rank(#[trigger] calls[i]) < rank(#[trigger] calls[j])
    &&& forall|i: int| 0 <= i < calls.len() ==> rank(#[trigger] calls[i]) < height
    &&& forall|i: int| 0 <= i < calls.len() - 1 ==> succeeded(#[trigger] calls[i])
}

/// What the platform sees of a bootstrap: its log grows by calls that come in
/// the order of the ladder, each at most once, and no call follows one that
/// failed. So the domain is probed at most once.
pub proof fn platform_calls_come_in_ladder_order<
    A: Il2CppApi,
    R: BootstrapReadiness,
    V: MethodResolver,
>(
    states: Seq<BootstrapDeps<A, R, V>>,
    deadline: u64,
    backoff: u64,
    events: Seq<BootstrapEvent>,
) -> (calls: Seq<PlatformEvent>)
    requires
        driven(states, foot(deadline, backoff), events),
    ensures
        states.last().api.log() == states[0].api.log() + calls,
        climbs(calls, foot(deadline, backoff).after(events).rung.height()),
        calls.len() > 0 && !succeeded(calls.last()) ==> foot(deadline, backoff).after(
            events,
        ).rung is Over,
    decreases events.len(),
{
    let start = foot(deadline, backoff);
    if events.len() == 0 {
        let calls = Seq::<PlatformEvent>::empty();
        assert(states.last().api.log() =~= states[0].api.log() + calls);
        calls
    } else {
        let past = events.drop_last();
        let earlier = states.drop_last();
        let last = events.len() - 1;
        lemma_driven(states, start, events);
        let calls = platform_calls_come_in_ladder_order(earlier, deadline, backoff, past);
        let before = states[last];
        let after = states[last + 1];
        action_fits_rung(deadline, backoff, past);
        let low = start.after(past);
        let step = lemma_step(before, after, past, asked(start, past), events.last(), low);
        let high = start.after(events);
        assert(high == low.step(events.last()).0);
        lemma_climbs(calls, step, low.rung.height(), high.rung.height());
        match step {
            Some(call) => {
                assert(after.api.log() =~= states[0].api.log() + calls.push(call));
                calls.push(call)
            },
            None => calls,
        }
    }
}

proof fn lemma_climbs(calls: Seq<PlatformEvent>, step: Option<PlatformEvent>, low: int, high: int)
    requires
        climbs(calls, low),
        low <= high,
        step matches Some(call) ==> rank(call) == low < high,
        step is Some ==> calls.len() > 0 ==> succeeded(calls.last()),
    ensures
        step matches Some(call) ==> climbs(calls.push(call), high),
        step is None ==> climbs(calls, high),
{
    if let Some(call) = step {
        let all = calls.push(call);
        assert forall|i: int| 0 <= i < all.len() - 1 implies succeeded(#[trigger] all[i]) by {
            assert(all[i] == calls[i]);
        }
    }
}

proof fn lemma_driven<A: Il2CppApi, R: BootstrapReadiness, V: MethodResolver>(
    states: Seq<BootstrapDeps<A, R, V>>,
    start: Bootstrap,
    events: Seq<BootstrapEvent>,
)
    requires
        driven(states, start, events),
        events.len() > 0,
    ensures
        driven(states.drop_last(), start, events.drop_last()),
        start.after(events.drop_last()).expects(events.last()),
        ({
            let last = events.len() - 1;
            let past = events.drop_last();
            carried_out(states[last], states[last + 1], past, asked(start, past), events.last())
        }),
{
    let past = events.drop_last();
    let earlier = states.drop_last();
    let last = events.len() - 1;
    assert forall|i: int| 0 <= i < past.len() implies carried_out(
        earlier[i],
        earlier[i + 1],
        past.take(i),
        asked(start, past.take(i)),
        #[trigger] past[i],
    ) by {
        assert(past.take(i) =~= events.take(i));
        assert(past[i] == events[i]);
    }
    assert(events.take(last) =~= past);
    assert(events[last] == events.last());
}

/// What one step makes of the platform's log: one call of the place of the rung
/// that was reached, or nothing.
proof fn lemma_step<A: Il2CppApi, R: BootstrapReadiness, V: MethodResolver>(
    before: BootstrapDeps<A, R, V>,
    after: BootstrapDeps<A, R, V>,
    past: Seq<BootstrapEvent>,
    action: BootstrapAction,
    event: BootstrapEvent,
    low: Bootstrap,
) -> (r: Option<PlatformEvent>)
    requires
        carried_out(before, after, past, action, event),
        order(action) == low.rung.height(),
        low.expects(event),
    ensures
        low.rung !is Over,
        low.step(event).0.rung.height() >= low.rung.height(),
        match r {
            Some(call) => {
                &&& after.api.log() == before.api.log().push(call)
                &&& rank(call) == low.rung.height() < low.step(event).0.rung.height()
                &&& !succeeded(call) ==> low.step(event).0.rung is Over
            },
            None => after.api == before.api,
        },
{
    if order(action) <= 2 || 4 <= order(action) <= 7 {
        let guard = choose|guard: Option<AttachGuard>| #[trigger]
            called(before, after, action, event, guard);
        Some(
            choose|call: PlatformEvent|
                {
                    &&& #[trigger] is_call(action, call)
                    &&& after.api.log() == before.api.log().push(call)
                    &&& event is Reply && event->Reply_0 == succeeded(call)
                    &&& guard == attachment(call)
                },
        )
    } else {
        None
    }
}

// ---------------------------------------------------------------------------
// The timing probe
// ---------------------------------------------------------------------------

/// What the timing probe waits for.
#[derive(Debug, Clone, Copy, PartialEq, Eq, Structural)]
pub enum ProbeRung {
    /// The identity of the image.
    Image,
    /// The exports.
    Exports,
    /// The end of the fixed interval.
    Pause,
    /// The domain.
    Domain,
    /// Nothing: the probe is over.
    Over,
}

/// What the timing probe has to do next.
#[derive(Debug, Clone, Copy, PartialEq, Eq, Structural)]
pub enum ProbeAction {
    /// Make this platform call.
    Call(BootstrapAction),
    /// Wait this many milliseconds.
    Sleep(u64),
    /// Stop; whether the domain was there.
    Finish(bool),
}

/// Diagnostic-only startup timing probe: verifies the image, loads the
/// exports, waits for a fixed interval and calls `domain_get` exactly once. It
/// stops there.
#[derive(Debug, Clone, Copy, PartialEq, Eq, Structural)]
pub struct TimingProbe {
    pub rung: ProbeRung,
    /// The interval, in milliseconds.
    pub delay: u64,
}

impl TimingProbe {
    /// `event` answers what the probe waits for.
    pub open spec fn expects(self, event: BootstrapEvent) -> bool {
        match self.rung {
            ProbeRung::Over => false,
            ProbeRung::Pause => event is Slept,
            _ => event is Reply,
        }
    }

    /// The state and the action after `event`.
    pub open spec fn step(self, event: BootstrapEvent) -> (TimingProbe, ProbeAction) {
        let ok = event is Reply && event->Reply_0;
        let over = TimingProbe { rung: ProbeRung::Over, ..self };
        match self.rung {
            ProbeRung::Image => if ok {
                (
                    TimingProbe { rung: ProbeRung::Exports, ..self },
                    ProbeAction::Call(BootstrapAction::LoadExports),
                )
            } else {
                (over, ProbeAction::Finish(false))
            },
            ProbeRung::Exports => if ok {
                (TimingProbe { rung: ProbeRung::Pause, ..self }, ProbeAction::Sleep(self.delay))
            } else {
                (over, ProbeAction::Finish(false))
            },
            ProbeRung::Pause => (
                TimingProbe { rung: ProbeRung::Domain, ..self },
                ProbeAction::Call(BootstrapAction::GetDomain),
            ),
            ProbeRung::Domain => (over, ProbeAction::Finish(ok)),
            ProbeRung::Over => (over, ProbeAction::Finish(false)),
        }
    }

    /// Takes in what came of the last action and says what to do next.
    pub fn next(&mut self, event: BootstrapEvent) -> (r: ProbeAction)
        requires
            old(self).expects(event),
        ensures
            (*final(self), r) == old(self).step(event),
    {
        let ok: bool = match event {
            BootstrapEvent::Reply(ok, _) => ok,
            _ => false,
        };
        match self.rung {
            ProbeRung::Image if ok => {
                self.rung = ProbeRung::Exports;
                ProbeAction::Call(BootstrapAction::LoadExports)
            },
            ProbeRung::Exports if ok => {
                self.rung = ProbeRung::Pause;
                ProbeAction::Sleep(self.delay)
            },
            ProbeRung::Pause => {
                self.rung = ProbeRung::Domain;
                ProbeAction::Call(BootstrapAction::GetDomain)
            },
            _ => {
                let found: bool = ok && self.rung == ProbeRung::Domain;
                self.rung = ProbeRung::Over;
                ProbeAction::Finish(found)
            },
        }
    }
}

/// Begins the timing probe: the probe, and the first thing to do.
pub fn run_bootstrap_timing_probe() -> (r: (TimingProbe, ProbeAction))
    ensures
        r.0 == (TimingProbe { rung: ProbeRung::Image, delay: TIMING_PROBE_DELAY }),
        r.1 == ProbeAction::Call(BootstrapAction::QueryImage),
{
    run_bootstrap_timing_probe_with_delay(TIMING_PROBE_DELAY)
}

/// Begins the timing probe with a delay of the caller's choice, in
/// milliseconds.
pub fn run_bootstrap_timing_probe_with_delay(delay: u64) -> (r: (TimingProbe, ProbeAction))
    ensures
        r.0 == (TimingProbe { rung: ProbeRung::Image, delay }),
        r.1 == ProbeAction::Call(BootstrapAction::QueryImage),
{
    (
        TimingProbe { rung: ProbeRung::Image, delay },
        ProbeAction::Call(BootstrapAction::QueryImage),
    )
}

/// `event` is what carrying out `action` of a timing probe came to.
pub open spec fn probe_step<A: Il2CppApi, R, V>(
    before: BootstrapDeps<A, R, V>,
    after: BootstrapDeps<A, R, V>,
    action: ProbeAction,
    event: BootstrapEvent,
) -> bool {
    match action {
        ProbeAction::Call(call) => exists|guard: Option<AttachGuard>| #[trigger]
            called(before, after, call, event, guard),
        _ => after == before,
    }
}

/// A whole timing probe whose steps all succeed up to the domain: the image,
/// the exports, the pause of the given length, and only then the domain, once.
/// Its result is whether the domain was there, and nothing else was asked.
pub proof fn timing_probe_pauses_before_the_domain<A: Il2CppApi, R, V>(
    states: Seq<BootstrapDeps<A, R, V>>,
    delay: u64,
    image: BootstrapEvent,
    exports: BootstrapEvent,
    rest: BootstrapEvent,
    domain: BootstrapEvent,
)
    requires
        states.len() == 5,
        ({
            let start = TimingProbe { rung: ProbeRung::Image, delay };
            let (loading, second) = start.step(image);
            let (pausing, third) = loading.step(exports);
            let (probing, fourth) = pausing.step(rest);
            &&& start.expects(image) && loading.expects(exports)
            &&& pausing.expects(rest) && probing.expects(domain)
            &&& probe_step(
                states[0],
                states[1],
                ProbeAction::Call(BootstrapAction::QueryImage),
                image,
            )
            &&& probe_step(states[1], states[2], second, exports)
            &&& probe_step(states[2], states[3], third, rest)
            &&& probe_step(states[3], states[4], fourth, domain)
        }),
    ensures
        ({
            let start = TimingProbe { rung: ProbeRung::Image, delay };
            let (loading, second) = start.step(image);
            let (pausing, third) = loading.step(exports);
            let (probing, fourth) = pausing.step(rest);
            let known = states[0].api.log().len() as int;
            let log = states[4].api.log();
            &&& third == ProbeAction::Sleep(delay)
            &&& log.len() == known + 3
            &&& log.take(known) == states[0].api.log()
            &&& log[known] is Image && log[known + 1] is Exports && log[known + 2] is Domain
            &&& states[3].api.log().len() == known + 2
            &&& probing.step(domain).1 == ProbeAction::Finish(succeeded(log[known + 2]))
        }),
{
    assert(states[4].api.log().take(states[0].api.log().len() as int) =~= states[0].api.log());
}

/// A timing probe stops at the first step that fails: nothing is asked after
/// it, and the domain is not reached.
pub proof fn timing_probe_stops_at_a_failure(probe: TimingProbe, event: BootstrapEvent)
    requires
        probe.expects(event),
        event is Reply,
        !event->Reply_0,
    ensures
        probe.step(event).0.rung is Over,
        probe.step(event).1 == ProbeAction::Finish(false),
{
}

} // verus!
