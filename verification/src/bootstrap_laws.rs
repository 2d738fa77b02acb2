//! What holds of one step of the bootstrap.

use vstd::prelude::*;

use crate::backend::{AttachGuard, Il2CppApi, MethodResolver, PlatformEvent, ResolverEvent};
use crate::bootstrap::{
    image_poll, production_plugins, readiness_poll, run_bootstrap,
    run_bootstrap_timing_probe, run_bootstrap_timing_probe_with_delay,
    run_bootstrap_with_readiness_wait, scheduler_target,
    validate_scheduler_method, Bootstrap, BootstrapAction, BootstrapDeps, BootstrapEnd,
    BootstrapEvent, BootstrapReadiness, CriWareUnityReadiness, PollStep, ProbeAction, ProbeRung,
    ProductionPlugin, Rung, TimingProbe,
};
use crate::config::RuntimeConfig;
use crate::error::Il2CppError;
use crate::method_slot::{MethodRef, SlotEvent, SlotMemory, TargetId};

verus! {

/// The scheduler target is `UniRx.MainThreadDispatcher.LateUpdate` of
/// `UniRx.dll`, an instance method without parameters and result, and a method
/// is valid exactly where it is that one.
pub proof fn scheduler_is_the_late_update(target: TargetId, method: &MethodRef, r: bool)
    requires
        call_ensures(scheduler_target, (), target),
        call_ensures(validate_scheduler_method, (method,), r),
    ensures
        target@.assembly == "UniRx.dll"@,
        target@.namespace == "UniRx"@,
        target@.class == "MainThreadDispatcher"@,
        target@.method == "LateUpdate"@,
        target@.param_count == 0 && target@.parameter_types.len() == 0,
        !target@.is_static,
        target@.return_type == "void"@,
        r <==> {
            &&& method.assembly@ == "UniRx.dll"@
            &&& method.namespace@ == "UniRx"@
            &&& method.class@ == "MainThreadDispatcher"@
            &&& method.method@ == "LateUpdate"@
            &&& method.param_count == 0
            &&& method.parameter_types.len() == 0
            &&& !method.is_static
            &&& method.return_type@ == "void"@
            &&& !method.is_generic && !method.is_inflated
        },
{
    let actual = method.parameter_types@.map_values(|name: String| name@);
    assert(actual.len() == method.parameter_types@.len());
    if method.parameter_types@.len() == 0 {
        assert(actual =~= Seq::<Seq<char>>::empty());
    }
}

/// A plugin runs exactly where it is enabled, once, and the debug plugin comes
/// before the other.
pub proof fn enabled_plugins_run(config: &RuntimeConfig, r: Vec<ProductionPlugin>)
    requires
        call_ensures(production_plugins, (config,), r),
    ensures
        r@.contains(ProductionPlugin::Debug) <==> config.debug.enabled,
        r@.contains(ProductionPlugin::UnlockFps) <==> config.fps.unlock_fps,
        r@.no_duplicates(),
        config.debug.enabled ==> r@.len() > 0 && r@[0] == ProductionPlugin::Debug,
{
    if config.debug.enabled {
        assert(r@[0] == ProductionPlugin::Debug);
    }
    if config.fps.unlock_fps {
        assert(r@.last() == ProductionPlugin::UnlockFps);
    }
}

/// The names of the plugins.
pub proof fn plugins_have_their_names(plugin: ProductionPlugin, r: &'static str)
    requires
        call_ensures(ProductionPlugin::name, (plugin,), r),
    ensures
        plugin is Debug ==> r@ == "debug"@,
        plugin is UnlockFps ==> r@ == "unlock_fps"@,
{
}

// ---------------------------------------------------------------------------
// Polling
// ---------------------------------------------------------------------------

/// The image is waited for until it is there or its time is over.
pub proof fn image_is_waited_for(
    found: bool,
    now: u64,
    deadline_at: u64,
    backoff: u64,
    r: PollStep,
)
    requires
        call_ensures(image_poll, (found, now, deadline_at, backoff), r),
    ensures
        r is Ready <==> found,
        r matches PollStep::Failed(error) ==> error == Il2CppError::ImageNotFound && now
            >= deadline_at,
        r matches PollStep::Sleep(pause) ==> pause == backoff && now < deadline_at,
{
}

/// Readiness is waited for until it is there, has failed or its time is over.
/// A pause is as long as asked, but ends with the time.
pub proof fn readiness_is_waited_for(
    ready: Result<bool, Il2CppError>,
    now: u64,
    deadline_at: u64,
    backoff: u64,
    r: PollStep,
)
    requires
        call_ensures(readiness_poll, (ready, now, deadline_at, backoff), r),
    ensures
        r is Ready <==> ready == Ok::<bool, Il2CppError>(true),
        ready matches Err(error) ==> r == PollStep::Failed(error),
        ready == Ok::<bool, Il2CppError>(false) && now >= deadline_at ==> r == PollStep::Failed(
            Il2CppError::ReadinessDeadlineExceeded,
        ),
        ready == Ok::<bool, Il2CppError>(false) && now < deadline_at ==> r is Sleep,
        r matches PollStep::Sleep(pause) ==> now + pause <= deadline_at && pause <= backoff && (
        pause == backoff || now + pause == deadline_at),
{
}

// ---------------------------------------------------------------------------
// The ladder
// ---------------------------------------------------------------------------

/// The rung above `rung`, and what is done on it.
pub open spec fn next_rung(rung: Rung) -> (Rung, BootstrapAction) {
    match rung {
        Rung::Image => (Rung::Exports, BootstrapAction::LoadExports),
        Rung::Exports => (Rung::Readiness, BootstrapAction::PollReadiness),
        Rung::Readiness => (Rung::Domain, BootstrapAction::GetDomain),
        Rung::Pause => (Rung::Readiness, BootstrapAction::PollReadiness),
        Rung::Domain => (Rung::Attach, BootstrapAction::AttachThread),
        Rung::Attach => (Rung::Hydrate, BootstrapAction::HydrateMetadata),
        Rung::Hydrate => (Rung::Identity, BootstrapAction::CheckIdentity),
        Rung::Identity => (Rung::Resolve, BootstrapAction::ResolveScheduler),
        Rung::Resolve => (Rung::Bind, BootstrapAction::ReadSlot),
        Rung::Publish => (Rung::Install, BootstrapAction::InstallHook),
        _ => (Rung::Handoff, BootstrapAction::PublishHandoff),
    }
}

/// `event` is the good news that its rung waits for: a step that succeeded, a
/// readiness that is there, a pause that is over, exactly the scheduler method,
/// a slot that holds a code pointer.
pub open spec fn is_good(event: BootstrapEvent) -> bool {
    match event {
        BootstrapEvent::Reply(ok, _) => ok,
        BootstrapEvent::Ready(ready, _) => ready == Ok::<bool, Il2CppError>(true),
        BootstrapEvent::Slept => true,
        BootstrapEvent::Scheduler(reply) => {
            &&& reply is Ok
            &&& reply->Ok_0.assembly@ == "UniRx.dll"@
            &&& reply->Ok_0.namespace@ == "UniRx"@
            &&& reply->Ok_0.class@ == "MainThreadDispatcher"@
            &&& reply->Ok_0.method@ == "LateUpdate"@
            &&& reply->Ok_0.param_count == 0 && reply->Ok_0.parameter_types.len() == 0
            &&& !reply->Ok_0.is_static
            &&& reply->Ok_0.return_type@ == "void"@
            &&& !reply->Ok_0.is_generic && !reply->Ok_0.is_inflated
        },
        BootstrapEvent::SlotWord(word) => word is Some && word->Some_0 != 0,
    }
}

/// The ladder is climbed one rung at a time, each on the good news that it
/// waits for, and the original that is published is the word of the slot.
/// Before readiness is there, the ladder only waits, never beyond the time that
/// ran from when the exports were loaded. Everything else ends the bootstrap:
/// its runtime gate is closed, unless the context of another bootstrap was found, an
/// application that exists is torn down, and an attachment is given back. Only
/// a handoff that succeeded ends it well.
pub proof fn ladder_is_climbed_on_good_news(
    ladder: &mut Bootstrap,
    event: BootstrapEvent,
    r: BootstrapAction,
)
    requires
        call_ensures(Bootstrap::next, (ladder, event), r),
        old(ladder).expects(event),
    ensures
        ({
            let rung = old(ladder).rung;
            let attached = rung is Hydrate || rung is Identity || rung is Resolve || rung is Bind
                || rung is Publish || rung is Install || rung is Handoff;
            let built = rung is Publish || rung is Install || rung is Handoff;
            let waits = rung is Readiness && event->Ready_0 == Ok::<bool, Il2CppError>(false)
                && event->Ready_1 < old(ladder).deadline_at;
            &&& is_good(event) && !(rung is Bind) && !(rung is Handoff) ==> final(ladder).rung
                == next_rung(rung).0 && r == next_rung(rung).1
            &&& is_good(event) && rung is Bind ==> final(ladder).rung is Publish && r
                == BootstrapAction::PublishContext(event->SlotWord_0->Some_0)
            &&& is_good(event) && rung is Handoff ==> final(ladder).rung is Over && r
                == BootstrapAction::Finish(
                BootstrapEnd {
                    close_gate: false,
                    tear_down: false,
                    release: true,
                    published: true,
                },
            )
            &&& waits ==> final(ladder).rung is Pause && r is Sleep && r->Sleep_0 + event->Ready_1
                <= old(ladder).deadline_at && r->Sleep_0 <= old(ladder).backoff && (r->Sleep_0
                == old(ladder).backoff || r->Sleep_0 + event->Ready_1 == old(ladder).deadline_at)
            &&& !is_good(event) && !waits ==> final(ladder).rung is Over && r
                == BootstrapAction::Finish(
                BootstrapEnd {
                    close_gate: !(rung is Publish),
                    tear_down: built,
                    release: attached,
                    published: false,
                },
            )
            &&& final(ladder).deadline == old(ladder).deadline
            &&& final(ladder).backoff == old(ladder).backoff
            &&& final(ladder).deadline_at == if rung is Exports {
                event->Reply_1 + old(ladder).deadline
            } else {
                old(ladder).deadline_at as int
            }
        }),
{
    if let BootstrapEvent::Scheduler(Ok(method)) = event {
        let actual = method.parameter_types@.map_values(|name: String| name@);
        assert(actual.len() == method.parameter_types@.len());
        if method.parameter_types@.len() == 0 {
            assert(actual =~= Seq::<Seq<char>>::empty());
        }
    }
}

/// The bootstrap begins with the image, waits for readiness for two minutes,
/// and looks every 50 milliseconds, or as its caller says.
pub proof fn bootstrap_begins_with_the_image(
    r: (Bootstrap, BootstrapAction),
    deadline: u64,
    backoff: u64,
    s: (Bootstrap, BootstrapAction),
    t: (TimingProbe, ProbeAction),
)
    requires
        call_ensures(run_bootstrap, (), r),
        call_ensures(run_bootstrap_with_readiness_wait, (deadline, backoff), s),
        call_ensures(run_bootstrap_timing_probe, (), t),
    ensures
        r.0.rung is Image && r.1 == BootstrapAction::QueryImage,
        r.0.deadline == 120_000 && r.0.backoff == 50,
        s.0.rung is Image && s.1 == BootstrapAction::QueryImage,
        s.0.deadline == deadline && s.0.backoff == backoff,
        t.0.rung is Image && t.1 == ProbeAction::Call(BootstrapAction::QueryImage),
        t.0.delay == 5_000,
        crate::bootstrap::IMAGE_POLL_DEADLINE == 120_000,
        crate::bootstrap::IMAGE_POLL_BACKOFF == 250,
        crate::bootstrap::CRIWARE_UNITY_READY_SYMBOL@ == "CRIWARE2813B966"@,
{
}

/// The timing probe goes from the image to the exports, pauses for its delay
/// and asks for the domain once; the first failure ends it, and its result is
/// whether the domain was there.
pub proof fn timing_probe_goes_step_by_step(
    probe: &mut TimingProbe,
    event: BootstrapEvent,
    r: ProbeAction,
)
    requires
        call_ensures(TimingProbe::next, (probe, event), r),
        old(probe).expects(event),
    ensures
        ({
            let ok = event is Slept || (event is Reply && event->Reply_0);
            let rung = old(probe).rung;
            &&& rung is Image && ok ==> final(probe).rung is Exports && r == ProbeAction::Call(
                BootstrapAction::LoadExports,
            )
            &&& rung is Exports && ok ==> final(probe).rung is Pause && r == ProbeAction::Sleep(
                old(probe).delay,
            )
            &&& rung is Pause ==> final(probe).rung is Domain && r == ProbeAction::Call(
                BootstrapAction::GetDomain,
            )
            &&& rung is Domain ==> final(probe).rung is Over && r == ProbeAction::Finish(ok)
            &&& !ok ==> final(probe).rung is Over && r == ProbeAction::Finish(false)
            &&& final(probe).delay == old(probe).delay
        }),
{
}

// ---------------------------------------------------------------------------
// What is asked
// ---------------------------------------------------------------------------

/// A rung asks the platform for exactly its own call, once, and reports whether
/// that succeeded; an attachment is handed out with it.
pub proof fn platform_is_asked_once<A: Il2CppApi, R, V, C: FnOnce() -> u64>(
    deps: &mut BootstrapDeps<A, R, V>,
    action: BootstrapAction,
    clock: C,
    r: (BootstrapEvent, Option<AttachGuard>),
)
    requires
        call_ensures(BootstrapDeps::<A, R, V>::call::<C>, (deps, action, clock), r),
        action is QueryImage || action is LoadExports || action is GetDomain
            || action is AttachThread || action is HydrateMetadata || action is CheckIdentity,
    ensures
        final(deps).readiness == old(deps).readiness,
        final(deps).resolver == old(deps).resolver,
        r.0 is Reply,
        clock.ensures((), r.0->Reply_1),
        ({
            let log = final(deps).api.log();
            let call = log.last();
            &&& log.len() == old(deps).api.log().len() + 1
            &&& log.drop_last() == old(deps).api.log()
            &&& action is QueryImage ==> call is Image && r.0->Reply_0 == (call->Image_0 is Ok)
            &&& action is LoadExports ==> call is Exports && r.0->Reply_0 == (call->Exports_0
                is Ok)
            &&& action is GetDomain ==> call is Domain && r.0->Reply_0 == (call->Domain_0 is Ok)
            &&& action is AttachThread ==> call is Attach && r.0->Reply_0 == (call->Attach_0
                is Ok) && (r.1 is Some <==> r.0->Reply_0) && (r.1 is Some ==> call->Attach_0 == Ok::<
                AttachGuard,
                Il2CppError,
            >(r.1->Some_0))
            &&& action is HydrateMetadata ==> call is Hydrate && r.0->Reply_0 == (call->Hydrate_0
                is Ok)
            &&& action is CheckIdentity ==> call is Identity && r.0->Reply_0 == (call->Identity_0
                is Ok)
            &&& !(action is AttachThread) ==> r.1 is None
        }),
{
    let call = choose|call: PlatformEvent|
        {
            &&& #[trigger] crate::bootstrap::is_call(action, call)
            &&& final(deps).api.log() == old(deps).api.log().push(call)
            &&& r.0 is Reply && r.0->Reply_0 == crate::bootstrap::succeeded(call)
            &&& r.1 == crate::bootstrap::attachment(call)
        };
    assert(final(deps).api.log().drop_last() =~= old(deps).api.log());
    assert(final(deps).api.log().last() == call);
}

/// Readiness and the resolver are each asked once for what their rung waits
/// for, and the answer is reported as it came. The slot that is read is that of
/// the method, and it is only read.
pub proof fn readiness_and_resolver_are_asked_once<
    A,
    R: BootstrapReadiness,
    V: MethodResolver,
    C: FnOnce() -> u64,
>(
    polled: &mut BootstrapDeps<A, R, V>,
    clock: C,
    ready: BootstrapEvent,
    resolving: &mut BootstrapDeps<A, R, V>,
    scheduler: BootstrapEvent,
    reading: &mut BootstrapDeps<A, R, V>,
    method: &MethodRef,
    word: BootstrapEvent,
)
    requires
        call_ensures(BootstrapDeps::<A, R, V>::poll_readiness::<C>, (polled, clock), ready),
        call_ensures(BootstrapDeps::<A, R, V>::resolve_scheduler, (resolving,), scheduler),
        call_ensures(BootstrapDeps::<A, R, V>::read_slot, (reading, method), word),
    ensures
        ready is Ready,
        clock.ensures((), ready->Ready_1),
        final(polled).readiness.log() == old(polled).readiness.log().push(ready->Ready_0),
        final(polled).api == old(polled).api && final(polled).resolver == old(polled).resolver,
        scheduler is Scheduler,
        final(resolving).api == old(resolving).api,
        final(resolving).readiness == old(resolving).readiness,
        ({
            let log = final(resolving).resolver.log();
            &&& log.len() == old(resolving).resolver.log().len() + 1
            &&& log.drop_last() == old(resolving).resolver.log()
            &&& log.last() is Method
            &&& log.last()->Method_0.assembly == "UniRx.dll"@
            &&& log.last()->Method_0.namespace == "UniRx"@
            &&& log.last()->Method_0.class == "MainThreadDispatcher"@
            &&& log.last()->Method_0.method == "LateUpdate"@
            &&& log.last()->Method_1 == scheduler->Scheduler_0
        }),
        word is SlotWord,
        final(reading).api == old(reading).api,
        final(reading).readiness == old(reading).readiness,
        ({
            let log = final(reading).resolver.log();
            &&& log.len() == old(reading).resolver.log().len() + 1
            &&& log.drop_last() == old(reading).resolver.log()
            &&& log.last() is Slot && log.last()->Slot_0 == *method
            &&& exists|read: V::Memory| #[trigger]
                read.log() == log.last()->Slot_1.log().push(SlotEvent::Read(word->SlotWord_0))
        }),
{
    let (memory, read) = choose|memory: V::Memory, read: V::Memory|
        {
            &&& final(reading).resolver.log() == old(reading).resolver.log().push(
                ResolverEvent::Slot(*method, memory),
            )
            &&& #[trigger] crate::method_slot::accessed(
                memory,
                read,
                seq![SlotEvent::Read(word->SlotWord_0)],
            )
        };
    assert(read.log() =~= memory.log().push(SlotEvent::Read(word->SlotWord_0)));
}

/// The middleware is looked up once and by its symbol. Where it was not found,
/// that is the error for good; where it was, it is ready exactly when the
/// function that was found does not return zero.
pub proof fn middleware_is_ready_when_it_says_so<
    L: FnOnce(&'static str) -> Option<usize>,
    Q: FnOnce(usize) -> i32,
>(
    new: CriWareUnityReadiness,
    probe: &mut CriWareUnityReadiness,
    lookup: L,
    query: Q,
    r: Result<bool, Il2CppError>,
)
    requires
        call_ensures(CriWareUnityReadiness::new, (), new),
        call_ensures(CriWareUnityReadiness::is_ready::<L, Q>, (probe, lookup, query), r),
    ensures
        new.looked_up() is None,
        final(probe).looked_up() is Some,
        old(probe).looked_up() matches Some(found) ==> final(probe).looked_up() == Some(found),
        old(probe).looked_up() is None ==> exists|symbol: &'static str|
            symbol@ == "CRIWARE2813B966"@ && #[trigger] lookup.ensures(
                (symbol,),
                final(probe).looked_up()->Some_0,
            ),
        r is Err <==> final(probe).looked_up()->Some_0 is None,
        r matches Err(error) ==> error is ReadinessSymbolMissing
            && error->ReadinessSymbolMissing_0@ == "CRIWARE2813B966"@,
        r == Ok::<bool, Il2CppError>(false) ==> query.ensures(
            (final(probe).looked_up()->Some_0->Some_0,),
            0,
        ),
        r == Ok::<bool, Il2CppError>(true) ==> exists|status: i32|
            status != 0 && #[trigger] query.ensures(
                (final(probe).looked_up()->Some_0->Some_0,),
                status,
            ),
{
}

/// A timing probe begins with the image and has the delay that was chosen.
pub proof fn probe_has_the_chosen_delay(delay: u64, r: (TimingProbe, ProbeAction))
    requires
        call_ensures(run_bootstrap_timing_probe_with_delay, (delay,), r),
    ensures
        r.0.delay == delay,
        r.0.rung == ProbeRung::Image,
        r.1 == ProbeAction::Call(BootstrapAction::QueryImage),
{
}

} // verus!
