//! What building a plugin leaves behind.

use std::sync::Arc;

use vstd::prelude::*;

use crate::backend::{MethodResolver, ResolverEvent};
use crate::base::TopicId;
use crate::config::{DebugConfig, FpsConfig, ReconConfig, RuntimeConfig, TranslationConfig};
use crate::container::LatestCell;
use crate::debug_dispatch::DebugTopicRegistration;
use crate::debug_plugin::{socket_path, DebugPlugin};
use crate::error::{HookError, PluginError};
use crate::fps::{
    FpsParts, FpsPlugin, FpsSetting, FpsSites, FpsState, RateTarget, SetterHook, VsyncTarget,
};
use crate::gate::GateReader;
use crate::hook::{HookSite, HookTarget, InstalledHook, SiteInner};
use crate::host::{AppCtx, TopicParts};
use crate::main_thread::MainThreadToken;
use crate::manager::HostTypes;
use crate::method_slot::{MethodRef, TargetId, TargetView};
use crate::phase::{ResourceInsert, RestoreAction};
use crate::recon::ReconPlugin;
use crate::route::MainLatestWriter;
use crate::routes::RouteDirection;
use crate::runtime_config::{FpsSection, ParsedConfig};

verus! {

// ---------------------------------------------------------------------------
// The debug plugin
// ---------------------------------------------------------------------------

/// The transport was bound at `path` behind the runtime gate, and what came of
/// it is `bound`: a transport whose dispatch system is the owner's newest, or
/// an error that is the answer and leaves the owner nothing.
pub open spec fn transport_bound<
    H: HostTypes,
    T,
    B: FnOnce(String, GateReader) -> Result<T, String>,
    F: FnOnce(T) -> H::Update,
>(
    before: AppCtx<H>,
    after: AppCtx<H>,
    bind: B,
    dispatch: F,
    path: String,
    bound: Result<T, String>,
    r: Result<(), PluginError>,
) -> bool {
    let old_record = crate::host_laws::own_record(before);
    let new_record = crate::host_laws::own_record(after);
    &&& bind.ensures((path, before.host().runtime_gate), bound)
    &&& r is Ok <==> bound is Ok
    &&& bound matches Err(error) ==> {
        &&& r->Err_0 is Io && r->Err_0->Io_0 == error
        &&& after.host() == before.host()
    }
    &&& bound matches Ok(transport) ==> {
        &&& crate::host_laws::own_change(before, after)
        &&& new_record.startup@ == old_record.startup@
        &&& crate::host_laws::ledgers_kept(old_record, new_record)
        &&& crate::host_laws::ends_kept(old_record, new_record)
        &&& new_record.update@.len() == old_record.update@.len() + 1
        &&& new_record.update@.drop_last() == old_record.update@
        &&& dispatch.ensures((transport,), new_record.update@.last())
    }
}

/// The debug plugin listens on the socket of its data root and serves through
/// one update system, or fails as its transport did.
pub proof fn debug_plugin_serves_its_socket<
    H: HostTypes,
    T,
    B: FnOnce(String, GateReader) -> Result<T, String>,
    F: FnOnce(T) -> H::Update,
>(
    plugin: &DebugPlugin,
    ctx: &mut AppCtx<H>,
    bind: B,
    dispatch: F,
    r: Result<(), PluginError>,
    socket: String,
)
    requires
        old(ctx).wf(),
        call_ensures(DebugPlugin::build::<H, T, B, F>, (plugin, ctx, bind, dispatch), r),
        call_ensures(socket_path, (&old(ctx).host().data_root,), socket),
    ensures
        final(ctx).owner() == old(ctx).owner(),
        exists|path: String, bound: Result<T, String>|
            path@ == socket@ && #[trigger] transport_bound::<H, T, B, F>(
                *old(ctx),
                *final(ctx),
                bind,
                dispatch,
                path,
                bound,
                r,
            ),
{
    let (path, bound) = choose|path: String, bound: Result<T, String>|
        {
            &&& path@ == crate::debug_plugin::socket_file(old(ctx).host().data_root.root())
            &&& #[trigger] bind.ensures((path, old(ctx).host().runtime_gate), bound)
            &&& match bound {
                Err(error) => {
                    &&& r is Err && r->Err_0 == PluginError::Io(error)
                    &&& final(ctx).host() == old(ctx).host()
                },
                Ok(transport) => exists|system: H::Update|
                    {
                        &&& #[trigger] dispatch.ensures((transport,), system)
                        &&& r is Ok
                        &&& crate::debug_plugin::dispatch_registered(*old(ctx), *final(ctx), system)
                    },
            }
        };
    if bound is Ok {
        let systems = crate::host_laws::own_record(*final(ctx)).update@;
        assert(systems.drop_last() =~= crate::host_laws::own_record(*old(ctx)).update@);
    }
    assert(transport_bound::<H, T, B, F>(*old(ctx), *final(ctx), bind, dispatch, path, bound, r));
}

// ---------------------------------------------------------------------------
// The reconnaissance plugin
// ---------------------------------------------------------------------------

/// Both topics are registered, the one for classes before the one for callers;
/// where the first is refused, that is the answer and the second is not offered.
pub proof fn recon_plugin_registers_two_topics<
    H: HostTypes,
    P,
    D,
    G: FnOnce(DebugTopicRegistration<P, D>) -> Result<TopicId, PluginError>,
    S: FnOnce(DebugTopicRegistration<P, D>) -> Result<TopicId, PluginError>,
>(
    plugin: &ReconPlugin,
    ctx: &mut AppCtx<H>,
    class: TopicParts<D, G, H::Update>,
    callers: TopicParts<D, S, H::Update>,
    r: Result<(), PluginError>,
)
    requires
        old(ctx).wf(),
        call_ensures(ReconPlugin::build::<H, P, D, G, S>, (plugin, ctx, class, callers), r),
    ensures
        exists|middle: AppCtx<H>, first: Result<(), PluginError>|
            {
                &&& #[trigger] crate::host_laws::topic_added::<H, P, D, G>(
                    *old(ctx),
                    middle,
                    "recon.class"@,
                    class.decode,
                    false,
                    class.register,
                    class.system,
                    first,
                )
                &&& first is Err ==> r == first && *final(ctx) == middle
                &&& first is Ok ==> crate::host_laws::topic_added::<H, P, D, S>(
                    middle,
                    *final(ctx),
                    "recon.callers"@,
                    callers.decode,
                    false,
                    callers.register,
                    callers.system,
                    r,
                )
            },
{
    let (middle, first) = choose|middle: AppCtx<H>, first: Result<(), PluginError>|
        {
            &&& #[trigger] middle.topic_registered::<P, D, G>(
                *old(ctx),
                crate::recon::CLASS_TOPIC,
                class.decode,
                false,
                class.register,
                class.system,
                first,
            )
            &&& crate::host::chained(
                first,
                middle,
                *final(ctx),
                final(ctx).topic_registered::<P, D, S>(
                    middle,
                    crate::recon::CALLERS_TOPIC,
                    callers.decode,
                    false,
                    callers.register,
                    callers.system,
                    r,
                ),
                r,
            )
        };
    crate::host_laws::lemma_topic_added::<H, P, D, G>(
        *old(ctx),
        middle,
        crate::recon::CLASS_TOPIC,
        class.decode,
        false,
        class.register,
        class.system,
        first,
    );
    if first is Ok {
        crate::host_laws::lemma_topic_added::<H, P, D, S>(
            middle,
            *final(ctx),
            crate::recon::CALLERS_TOPIC,
            callers.decode,
            false,
            callers.register,
            callers.system,
            r,
        );
    }
}

// ---------------------------------------------------------------------------
// The frame rate plugin
// ---------------------------------------------------------------------------

/// A setter's site is hooked by `replacement` for the owner of `ctx`, and can
/// reach its original.
pub open spec fn setter_in_place<H: HostTypes>(
    ctx: AppCtx<H>,
    site: Option<SiteInner<FpsSites>>,
    replacement: usize,
) -> bool {
    &&& site is Some
    &&& site->Some_0.installed
    &&& site->Some_0.original_addr != 0
    &&& site->Some_0.replacement == replacement
    &&& site->Some_0.runtime_gate == ctx.host().runtime_gate
    &&& site->Some_0.plugin_gate == crate::host_laws::own_record(ctx).gate.handle()
}

/// What a built plugin has: `stated` and `written` are the resources of the
/// state and of the main end, `sites` what the replacements share.
pub open spec fn control_in_place<
    H: HostTypes,
    I: FnOnce() -> Result<(), PluginError>,
    K: FnOnce(FpsState) -> ResourceInsert<H::TypeKey, I, H::Remove>,
    J: FnOnce() -> Result<(), PluginError>,
    M: FnOnce(MainLatestWriter<FpsSetting>) -> ResourceInsert<H::TypeKey, J, H::Remove>,
    C: FnOnce(Arc<FpsSites>) -> H::Container,
>(
    before: AppCtx<H>,
    last: AppCtx<H>,
    config: FpsSection,
    state: K,
    writer: M,
    container: C,
    stated: ResourceInsert<H::TypeKey, I, H::Remove>,
    main: MainLatestWriter<FpsSetting>,
    written: ResourceInsert<H::TypeKey, J, H::Remove>,
    sites: Arc<FpsSites>,
) -> bool {
    let old_record = crate::host_laws::own_record(before);
    let new_record = crate::host_laws::own_record(last);
    let count = old_record.inserted@.len() as int;
    &&& state.ensures((FpsState { target: config.target, updates: 0 },), stated)
    &&& writer.ensures((main,), written)
    &&& new_record.container is Some
    &&& container.ensures((sites,), new_record.container->Some_0)
    &&& sites.setting.route() == main.route()
    &&& new_record.inserted@.len() == count + 2
    &&& new_record.inserted@.take(count) == old_record.inserted@
    &&& new_record.inserted@[count].type_id == stated.type_id
    &&& new_record.inserted@[count].remove == stated.remove
    &&& new_record.inserted@[count + 1].type_id == written.type_id
    &&& new_record.inserted@[count + 1].remove == written.remove
}

/// A frame rate plugin that was built has both setters hooked by their own
/// replacements, which share one end of a new route toward the callbacks; its
/// ledger has what removes the state and the main end, and what restores each
/// setter; and both topics are served, the one that reads first.
#[verifier::rlimit(60)]
#[verifier::spinoff_prover]
pub proof fn built_control_is_in_place<
    H: HostTypes,
    I: FnOnce() -> Result<(), PluginError>,
    K: FnOnce(FpsState) -> ResourceInsert<H::TypeKey, I, H::Remove>,
    J: FnOnce() -> Result<(), PluginError>,
    M: FnOnce(MainLatestWriter<FpsSetting>) -> ResourceInsert<H::TypeKey, J, H::Remove>,
    C: FnOnce(Arc<FpsSites>) -> H::Container,
    V: MethodResolver,
    W: FnOnce(InstalledHook<V::Memory>) -> H::AnyThread,
    P,
    D,
    G: FnOnce(DebugTopicRegistration<P, D>) -> Result<TopicId, PluginError>,
    S: FnOnce(DebugTopicRegistration<P, D>) -> Result<TopicId, PluginError>,
>(
    plugin: &FpsPlugin,
    ctx: &mut AppCtx<H>,
    config: &FpsSection,
    state: K,
    payload: &'static str,
    writer: M,
    container: C,
    rate_site: &mut HookSite<FpsSites>,
    vsync_site: &mut HookSite<FpsSites>,
    resolver: &mut Option<V>,
    parts: FpsParts<W, D, G, S, H::Update>,
    r: Result<LatestCell<FpsSetting>, PluginError>,
)
    requires
        old(ctx).wf(),
        call_ensures(
            FpsPlugin::build::<H, I, K, J, M, C, V, W, P, D, G, S>,
            (
                plugin,
                ctx,
                config,
                state,
                payload,
                writer,
                container,
                rate_site,
                vsync_site,
                resolver,
                parts,
            ),
            r,
        ),
        r is Ok,
    ensures
        r->Ok_0@ is None,
        final(ctx).wf(),
        final(ctx).owner() == old(ctx).owner(),
        crate::host_laws::only_owner_and_routes_changed(
            old(ctx).host(),
            final(ctx).host(),
            old(ctx).owner(),
        ),
        setter_in_place(*old(ctx), final(rate_site)@, parts.rate.replacement),
        setter_in_place(*old(ctx), final(vsync_site)@, parts.vsync.replacement),
        final(rate_site)@->Some_0.container == final(vsync_site)@->Some_0.container,
        final(ctx).host().routes@.len() == old(ctx).host().routes@.len() + 1,
        final(ctx).host().routes@.drop_last() == old(ctx).host().routes@,
        final(ctx).host().routes@.last().direction == RouteDirection::MainToCallback,
        final(ctx).host().routes@.last().payload == payload,
        final(ctx).host().routes@.last().mailbox@ == "latest"@,
        final(ctx).host().routes@.last().owner == old(ctx).owner(),
        ({
            let old_record = crate::host_laws::own_record(*old(ctx));
            let new_record = crate::host_laws::own_record(*final(ctx));
            &&& crate::host_laws::identity_kept(old_record, new_record)
            &&& new_record.startup@ == old_record.startup@
            &&& new_record.update@ == old_record.update@ + seq![parts.get.system, parts.set.system]
            &&& new_record.topic_ids@.len() == old_record.topic_ids@.len() + 2
            &&& new_record.route_ids@ == old_record.route_ids@ + seq![
                final(ctx).host().routes@.last().id,
            ]
            &&& old_record.container is None
            &&& new_record.effects@.len() == old_record.effects@.len() + 2
            &&& new_record.effects@.take(old_record.effects@.len() as int) == old_record.effects@
            &&& new_record.effects@[old_record.effects@.len() as int] is AnyThread
            &&& new_record.effects@.last() is AnyThread
        }),
        exists|
            stated: ResourceInsert<H::TypeKey, I, H::Remove>,
            main: MainLatestWriter<FpsSetting>,
            written: ResourceInsert<H::TypeKey, J, H::Remove>,
            sites: Arc<FpsSites>,
        |
            {
                &&& #[trigger] control_in_place::<H, I, K, J, M, C>(
                    *old(ctx),
                    *final(ctx),
                    *config,
                    state,
                    writer,
                    container,
                    stated,
                    main,
                    written,
                    sites,
                )
                &&& final(rate_site)@->Some_0.container == sites
            },
{
    let before = *old(ctx);
    let last = *final(ctx);
    let (rate_before, rate_after) = (old(rate_site)@, final(rate_site)@);
    let (vsync_before, vsync_after) = (old(vsync_site)@, final(vsync_site)@);
    let (stated, held, first) = choose|
        insert: ResourceInsert<H::TypeKey, I, H::Remove>,
        stated: AppCtx<H>,
        first: Result<(), PluginError>,
    |
        {
            &&& #[trigger] state.ensures((crate::fps::start_state(*config),), insert)
            &&& #[trigger] stated.resource_inserted(before, insert, first)
            &&& crate::host::chained(
                first,
                stated,
                last,
                exists|routed: AppCtx<H>|
                    {
                        &&& #[trigger] routed.routed(
                            stated,
                            crate::host::outward(payload, "latest"),
                        )
                        &&& crate::fps::route_used::<H, J, M, C, V, W, P, D, G, S>(
                            routed,
                            last,
                            writer,
                            container,
                            rate_before,
                            rate_after,
                            vsync_before,
                            vsync_after,
                            parts,
                            *old(resolver),
                            *final(resolver),
                            Ok(()),
                        )
                    },
                Ok(()),
            )
        };
    assert(first is Ok);
    let routed = choose|routed: AppCtx<H>|
        {
            &&& #[trigger] routed.routed(held, crate::host::outward(payload, "latest"))
            &&& crate::fps::route_used::<H, J, M, C, V, W, P, D, G, S>(
                routed,
                last,
                writer,
                container,
                rate_before,
                rate_after,
                vsync_before,
                vsync_after,
                parts,
                *old(resolver),
                *final(resolver),
                Ok(()),
            )
        };
    let (main, written, noted, second) = choose|
        main: MainLatestWriter<FpsSetting>,
        insert: ResourceInsert<H::TypeKey, J, H::Remove>,
        written: AppCtx<H>,
        second: Result<(), PluginError>,
    |
        {
            &&& #[trigger] writer.ensures((main,), insert)
            &&& #[trigger] written.resource_inserted(routed, insert, second)
            &&& crate::host::chained(
                second,
                written,
                last,
                exists|
                    sites: Arc<FpsSites>,
                    boxed: H::Container,
                    contained: AppCtx<H>,
                    third: Result<(), PluginError>,
                |
                    {
                        &&& sites.setting.route() == main.route()
                        &&& #[trigger] container.ensures((sites,), boxed)
                        &&& #[trigger] contained.container_registered(written, boxed, third)
                        &&& crate::host::chained(
                            third,
                            contained,
                            last,
                            crate::fps::hooks_registered::<H, V, W, P, D, G, S>(
                                contained,
                                last,
                                sites,
                                rate_before,
                                rate_after,
                                vsync_before,
                                vsync_after,
                                parts,
                                *old(resolver),
                                *final(resolver),
                                Ok(()),
                            ),
                            Ok(()),
                        )
                    },
                Ok(()),
            )
        };
    assert(second is Ok);
    let (sites, boxed, contained, third) = choose|
        sites: Arc<FpsSites>,
        boxed: H::Container,
        contained: AppCtx<H>,
        third: Result<(), PluginError>,
    |
        {
            &&& sites.setting.route() == main.route()
            &&& #[trigger] container.ensures((sites,), boxed)
            &&& #[trigger] contained.container_registered(noted, boxed, third)
            &&& crate::host::chained(
                third,
                contained,
                last,
                crate::fps::hooks_registered::<H, V, W, P, D, G, S>(
                    contained,
                    last,
                    sites,
                    rate_before,
                    rate_after,
                    vsync_before,
                    vsync_after,
                    parts,
                    *old(resolver),
                    *final(resolver),
                    Ok(()),
                ),
                Ok(()),
            )
        };
    assert(third is Ok);
    let count = crate::host_laws::own_record(before).inserted@.len() as int;
    let inserted = crate::host_laws::own_record(last).inserted@;
    assert(inserted == crate::host_laws::own_record(contained).inserted@);
    assert(inserted.take(count) =~= crate::host_laws::own_record(before).inserted@);
    assert(control_in_place::<H, I, K, J, M, C>(
        before,
        last,
        *config,
        state,
        writer,
        container,
        stated,
        main,
        written,
        sites,
    ));
}

/// The log of a resolver that was asked for `class.method` and for the slot of
/// the method that it gave.
pub open spec fn setter_asked<M>(
    log: Seq<ResolverEvent<M>>,
    at: int,
    class: Seq<char>,
    method: Seq<char>,
) -> bool {
    &&& log[at] is Method
    &&& log[at]->Method_0.namespace == "UnityEngine"@
    &&& log[at]->Method_0.class == class
    &&& log[at]->Method_0.method == method
    &&& log[at]->Method_1 is Ok
    &&& log[at + 1] is Slot
    &&& log[at + 1]->Slot_0 == log[at]->Method_1->Ok_0
}

/// The new restore action `i` of the owner.
pub open spec fn new_restore<H: HostTypes>(
    before: AppCtx<H>,
    after: AppCtx<H>,
    i: int,
) -> RestoreAction<H::AnyThread, H::MainThread> {
    let count = crate::host_laws::own_record(before).effects@.len() as int;
    crate::host_laws::own_record(after).effects@[count + i]
}

/// `action` is what restores a setter that `replacement` was swapped in for.
pub open spec fn restores_setter<
    H: HostTypes,
    V: MethodResolver,
    W: FnOnce(InstalledHook<V::Memory>) -> H::AnyThread,
>(
    hook: InstalledHook<V::Memory>,
    site: Option<SiteInner<FpsSites>>,
    replacement: usize,
    wrap: W,
    action: RestoreAction<H::AnyThread, H::MainThread>,
) -> bool {
    &&& hook.original() == site->Some_0.original_addr
    &&& hook.replaced_by() == replacement
    &&& action is AnyThread
    &&& wrap.ensures((hook,), action->AnyThread_0)
}

proof fn lemma_setter<
    H: HostTypes,
    T: HookTarget,
    V: MethodResolver,
    W: FnOnce(InstalledHook<V::Memory>) -> H::AnyThread,
>(
    before: AppCtx<H>,
    now: AppCtx<H>,
    sites: Arc<FpsSites>,
    site: Option<SiteInner<FpsSites>>,
    after: Option<SiteInner<FpsSites>>,
    hook: SetterHook<W>,
    resolver: Option<V>,
    asked: Option<V>,
    view: TargetView,
)
    requires
        before.wf(),
        crate::fps::setter_hooked::<H, T, V, W>(
            before,
            now,
            sites,
            site,
            after,
            hook,
            resolver,
            asked,
            Ok(()),
        ),
        forall|target: TargetId| #[trigger] call_ensures(T::target, (), target) ==> target@ == view,
        view.namespace == "UnityEngine"@,
    ensures
        now.wf(),
        resolver is Some && asked is Some,
        asked->Some_0.log().len() == resolver->Some_0.log().len() + 2,
        asked->Some_0.log().take(resolver->Some_0.log().len() as int)
            == resolver->Some_0.log(),
        setter_asked(
            asked->Some_0.log(),
            resolver->Some_0.log().len() as int,
            view.class,
            view.method,
        ),
        crate::host_laws::own_record(now).effects@.len() == crate::host_laws::own_record(
            before,
        ).effects@.len() + 1,
        crate::host_laws::own_record(now).effects@.drop_last() == crate::host_laws::own_record(
            before,
        ).effects@,
        exists|installed: InstalledHook<V::Memory>| #[trigger]
            restores_setter::<H, V, W>(
                installed,
                after,
                hook.replacement,
                hook.wrap,
                crate::host_laws::own_record(now).effects@.last(),
            ),
{
    let published = Some(
        SiteInner {
            container: sites,
            runtime_gate: before.host().runtime_gate,
            plugin_gate: before.host().of(before.owner()).gate.handle(),
            replacement: hook.replacement,
            original_addr: 0,
            installed: false,
        },
    );
    crate::host_laws::lemma_hooked::<H, FpsSites, T, V, W>(
        before,
        now,
        published,
        after,
        resolver,
        asked,
        hook.wrap,
        Ok(()),
    );
    let installed = choose|installed: Result<InstalledHook<V::Memory>, PluginError>|
        {
            &&& #[trigger] crate::hook::installation::<T, V, FpsSites>(
                resolver,
                asked,
                published,
                after,
                installed,
            )
            &&& now.hook_noted::<V, W>(before, installed, hook.wrap, Ok(()))
        };
    crate::hook_laws::lemma_asked::<T, V, FpsSites>(resolver, asked, published, after, installed);
    let (target, reply) = choose|target: TargetId, reply: Result<MethodRef, HookError>| #[trigger]
        crate::hook_laws::asked_for_its_target::<T, V, FpsSites>(
            resolver->Some_0,
            asked->Some_0,
            published->Some_0,
            after,
            target,
            reply,
            installed,
        );
    let old_log = resolver->Some_0.log();
    let log = asked->Some_0.log();
    let middle = old_log + seq![ResolverEvent::Method(target@, reply)];
    assert(log.drop_last() == middle);
    assert(log[old_log.len() as int] == middle[old_log.len() as int]);
    assert(log.take(old_log.len() as int) =~= log.drop_last().take(old_log.len() as int));
    assert(middle.take(old_log.len() as int) =~= old_log);
    let (held, action) = choose|held: InstalledHook<V::Memory>, action: H::AnyThread|
        {
            &&& #[trigger] crate::host_laws::restore_added::<H, V, W>(
                before,
                now,
                hook.wrap,
                held,
                action,
            )
            &&& held.original() == after->Some_0.original_addr
            &&& held.replaced_by() == hook.replacement
        };
    let effects = crate::host_laws::own_record(now).effects@;
    assert(effects.drop_last() =~= crate::host_laws::own_record(before).effects@);
    assert(restores_setter::<H, V, W>(held, after, hook.replacement, hook.wrap, effects.last()));
}

/// A built plugin asked for the frame rate setter and then for the v-sync
/// setter, and hooked each by its own replacement: what restores the one is
/// before what restores the other.
#[verifier::rlimit(60)]
#[verifier::spinoff_prover]
pub proof fn each_setter_has_its_own_hook<
    H: HostTypes,
    I: FnOnce() -> Result<(), PluginError>,
    K: FnOnce(FpsState) -> ResourceInsert<H::TypeKey, I, H::Remove>,
    J: FnOnce() -> Result<(), PluginError>,
    M: FnOnce(MainLatestWriter<FpsSetting>) -> ResourceInsert<H::TypeKey, J, H::Remove>,
    C: FnOnce(Arc<FpsSites>) -> H::Container,
    V: MethodResolver,
    W: FnOnce(InstalledHook<V::Memory>) -> H::AnyThread,
    P,
    D,
    G: FnOnce(DebugTopicRegistration<P, D>) -> Result<TopicId, PluginError>,
    S: FnOnce(DebugTopicRegistration<P, D>) -> Result<TopicId, PluginError>,
>(
    plugin: &FpsPlugin,
    ctx: &mut AppCtx<H>,
    config: &FpsSection,
    state: K,
    payload: &'static str,
    writer: M,
    container: C,
    rate_site: &mut HookSite<FpsSites>,
    vsync_site: &mut HookSite<FpsSites>,
    resolver: &mut Option<V>,
    parts: FpsParts<W, D, G, S, H::Update>,
    r: Result<LatestCell<FpsSetting>, PluginError>,
)
    requires
        old(ctx).wf(),
        call_ensures(
            FpsPlugin::build::<H, I, K, J, M, C, V, W, P, D, G, S>,
            (
                plugin,
                ctx,
                config,
                state,
                payload,
                writer,
                container,
                rate_site,
                vsync_site,
                resolver,
                parts,
            ),
            r,
        ),
        r is Ok,
    ensures
        *old(resolver) is Some && *final(resolver) is Some,
        ({
            let count = (*old(resolver))->Some_0.log().len() as int;
            let log = (*final(resolver))->Some_0.log();
            &&& log.len() == count + 4
            &&& log.take(count) == (*old(resolver))->Some_0.log()
            &&& setter_asked(log, count, "Application"@, "set_targetFrameRate"@)
            &&& setter_asked(log, count + 2, "QualitySettings"@, "set_vSyncCount"@)
        }),
        exists|rate: InstalledHook<V::Memory>, vsync: InstalledHook<V::Memory>|
            {
                &&& #[trigger] restores_setter::<H, V, W>(
                    rate,
                    final(rate_site)@,
                    parts.rate.replacement,
                    parts.rate.wrap,
                    new_restore(*old(ctx), *final(ctx), 0),
                )
                &&& #[trigger] restores_setter::<H, V, W>(
                    vsync,
                    final(vsync_site)@,
                    parts.vsync.replacement,
                    parts.vsync.wrap,
                    new_restore(*old(ctx), *final(ctx), 1),
                )
            },
{
    let before = *old(ctx);
    let last = *final(ctx);
    let (contained, sites) = choose|contained: AppCtx<H>, sites: Arc<FpsSites>|
        {
            &&& contained.wf()
            &&& crate::host_laws::own_record(contained).effects@ == crate::host_laws::own_record(
                before,
            ).effects@
            &&& #[trigger] crate::fps::hooks_registered::<H, V, W, P, D, G, S>(
                contained,
                last,
                sites,
                old(rate_site)@,
                final(rate_site)@,
                old(vsync_site)@,
                final(vsync_site)@,
                parts,
                *old(resolver),
                *final(resolver),
                Ok(()),
            )
        };
    let (rated, between, first) = choose|
        rated: AppCtx<H>,
        between: Option<V>,
        first: Result<(), PluginError>,
    |
        {
            &&& #[trigger] crate::fps::setter_hooked::<H, RateTarget, V, W>(
                contained,
                rated,
                sites,
                old(rate_site)@,
                final(rate_site)@,
                parts.rate,
                *old(resolver),
                between,
                first,
            )
            &&& crate::host::chained(
                first,
                rated,
                last,
                exists|synced: AppCtx<H>, second: Result<(), PluginError>|
                    {
                        &&& #[trigger] crate::fps::setter_hooked::<H, VsyncTarget, V, W>(
                            rated,
                            synced,
                            sites,
                            old(vsync_site)@,
                            final(vsync_site)@,
                            parts.vsync,
                            between,
                            *final(resolver),
                            second,
                        )
                        &&& crate::host::chained(
                            second,
                            synced,
                            last,
                            crate::fps::topics_registered::<H, P, D, G, S>(
                                synced,
                                last,
                                parts.get,
                                parts.set,
                                Ok(()),
                            ),
                            Ok(()),
                        )
                    },
                Ok(()),
            )
        };
    assert(first is Ok);
    let (synced, second) = choose|synced: AppCtx<H>, second: Result<(), PluginError>|
        {
            &&& #[trigger] crate::fps::setter_hooked::<H, VsyncTarget, V, W>(
                rated,
                synced,
                sites,
                old(vsync_site)@,
                final(vsync_site)@,
                parts.vsync,
                between,
                *final(resolver),
                second,
            )
            &&& crate::host::chained(
                second,
                synced,
                last,
                crate::fps::topics_registered::<H, P, D, G, S>(
                    synced,
                    last,
                    parts.get,
                    parts.set,
                    Ok(()),
                ),
                Ok(()),
            )
        };
    assert(second is Ok);
    lemma_setter::<H, RateTarget, V, W>(
        contained,
        rated,
        sites,
        old(rate_site)@,
        final(rate_site)@,
        parts.rate,
        *old(resolver),
        between,
        crate::fps::rate_view(),
    );
    lemma_setter::<H, VsyncTarget, V, W>(
        rated,
        synced,
        sites,
        old(vsync_site)@,
        final(vsync_site)@,
        parts.vsync,
        between,
        *final(resolver),
        crate::fps::vsync_view(),
    );
    let count = (*old(resolver))->Some_0.log().len() as int;
    let log = (*final(resolver))->Some_0.log();
    assert(log.take(count + 2) == between->Some_0.log());
    assert(log.take(count) =~= log.take(count + 2).take(count));
    assert(log[count] == log.take(count + 2)[count]);
    assert(log[count + 1] == log.take(count + 2)[count + 1]);
    let done = crate::host_laws::own_record(before).effects@.len() as int;
    let effects = crate::host_laws::own_record(last).effects@;
    assert(effects == crate::host_laws::own_record(synced).effects@);
    assert(effects.drop_last()[done] == effects[done]);
    let rate = choose|rate: InstalledHook<V::Memory>| #[trigger]
        restores_setter::<H, V, W>(
            rate,
            final(rate_site)@,
            parts.rate.replacement,
            parts.rate.wrap,
            crate::host_laws::own_record(rated).effects@.last(),
        );
    let vsync = choose|vsync: InstalledHook<V::Memory>| #[trigger]
        restores_setter::<H, V, W>(
            vsync,
            final(vsync_site)@,
            parts.vsync.replacement,
            parts.vsync.wrap,
            crate::host_laws::own_record(synced).effects@.last(),
        );
    assert(restores_setter::<H, V, W>(
        rate,
        final(rate_site)@,
        parts.rate.replacement,
        parts.rate.wrap,
        new_restore(before, last, 0),
    ));
    assert(restores_setter::<H, V, W>(
        vsync,
        final(vsync_site)@,
        parts.vsync.replacement,
        parts.vsync.wrap,
        new_restore(before, last, 1),
    ));
}

/// What came of the resource of the state: a refusal is the answer, and the
/// owner has nothing new.
pub open spec fn state_asked<
    H: HostTypes,
    I: FnOnce() -> Result<(), PluginError>,
    K: FnOnce(FpsState) -> ResourceInsert<H::TypeKey, I, H::Remove>,
>(
    before: AppCtx<H>,
    last: AppCtx<H>,
    config: FpsSection,
    state: K,
    stated: ResourceInsert<H::TypeKey, I, H::Remove>,
    first: Result<(), PluginError>,
    r: Result<LatestCell<FpsSetting>, PluginError>,
) -> bool {
    let old_record = crate::host_laws::own_record(before);
    let new_record = crate::host_laws::own_record(last);
    &&& state.ensures((FpsState { target: config.target, updates: 0 },), stated)
    &&& stated.insert.ensures((), first)
    &&& first is Err ==> {
        &&& r is Err && r->Err_0 == first->Err_0
        &&& last.host().routes@ == before.host().routes@
        &&& crate::host_laws::systems_kept(old_record, new_record)
        &&& crate::host_laws::ledgers_kept(old_record, new_record)
        &&& crate::host_laws::ends_kept(old_record, new_record)
    }
}

/// What came of the resource of the main end: a refusal is the answer, and the
/// owner has neither a container nor a hook of the plugin. Where it was taken,
/// the next refusal is the answer: a container that is there, a site that is
/// taken, a resolver that is not there.
pub open spec fn main_end_asked<
    H: HostTypes,
    J: FnOnce() -> Result<(), PluginError>,
    M: FnOnce(MainLatestWriter<FpsSetting>) -> ResourceInsert<H::TypeKey, J, H::Remove>,
>(
    before: AppCtx<H>,
    last: AppCtx<H>,
    writer: M,
    site: Option<SiteInner<FpsSites>>,
    resolves: bool,
    main: MainLatestWriter<FpsSetting>,
    written: ResourceInsert<H::TypeKey, J, H::Remove>,
    second: Result<(), PluginError>,
    r: Result<LatestCell<FpsSetting>, PluginError>,
) -> bool {
    let old_record = crate::host_laws::own_record(before);
    let new_record = crate::host_laws::own_record(last);
    &&& writer.ensures((main,), written)
    &&& written.insert.ensures((), second)
    &&& second is Err ==> {
        &&& r is Err && r->Err_0 == second->Err_0
        &&& crate::host_laws::systems_kept(old_record, new_record)
        &&& new_record.effects@ == old_record.effects@
        &&& new_record.container == old_record.container
        &&& new_record.topic_ids@ == old_record.topic_ids@
    }
    &&& second is Ok && old_record.container is Some ==> r is Err && r->Err_0
        == PluginError::Message("a container is already registered")
    &&& second is Ok && old_record.container is None && site is Some ==> r is Err && r->Err_0
        == PluginError::Hook(HookError::SiteAlreadyRegistered)
    &&& second is Ok && old_record.container is None && site is None && !resolves ==> r is Err
        && r->Err_0 == PluginError::Message("method resolver unavailable")
}

/// The first step that is refused is the answer of the build.
#[verifier::rlimit(60)]
#[verifier::spinoff_prover]
pub proof fn first_refusal_is_the_answer<
    H: HostTypes,
    I: FnOnce() -> Result<(), PluginError>,
    K: FnOnce(FpsState) -> ResourceInsert<H::TypeKey, I, H::Remove>,
    J: FnOnce() -> Result<(), PluginError>,
    M: FnOnce(MainLatestWriter<FpsSetting>) -> ResourceInsert<H::TypeKey, J, H::Remove>,
    C: FnOnce(Arc<FpsSites>) -> H::Container,
    V: MethodResolver,
    W: FnOnce(InstalledHook<V::Memory>) -> H::AnyThread,
    P,
    D,
    G: FnOnce(DebugTopicRegistration<P, D>) -> Result<TopicId, PluginError>,
    S: FnOnce(DebugTopicRegistration<P, D>) -> Result<TopicId, PluginError>,
>(
    plugin: &FpsPlugin,
    ctx: &mut AppCtx<H>,
    config: &FpsSection,
    state: K,
    payload: &'static str,
    writer: M,
    container: C,
    rate_site: &mut HookSite<FpsSites>,
    vsync_site: &mut HookSite<FpsSites>,
    resolver: &mut Option<V>,
    parts: FpsParts<W, D, G, S, H::Update>,
    r: Result<LatestCell<FpsSetting>, PluginError>,
)
    requires
        old(ctx).wf(),
        call_ensures(
            FpsPlugin::build::<H, I, K, J, M, C, V, W, P, D, G, S>,
            (
                plugin,
                ctx,
                config,
                state,
                payload,
                writer,
                container,
                rate_site,
                vsync_site,
                resolver,
                parts,
            ),
            r,
        ),
    ensures
        exists|stated: ResourceInsert<H::TypeKey, I, H::Remove>, first: Result<(), PluginError>|
            {
                &&& #[trigger] state_asked::<H, I, K>(
                    *old(ctx),
                    *final(ctx),
                    *config,
                    state,
                    stated,
                    first,
                    r,
                )
                &&& first is Ok ==> exists|
                    main: MainLatestWriter<FpsSetting>,
                    written: ResourceInsert<H::TypeKey, J, H::Remove>,
                    second: Result<(), PluginError>,
                | #[trigger]
                    main_end_asked::<H, J, M>(
                        *old(ctx),
                        *final(ctx),
                        writer,
                        old(rate_site)@,
                        *old(resolver) is Some,
                        main,
                        written,
                        second,
                        r,
                    )
            },
{
    let before = *old(ctx);
    let last = *final(ctx);
    let outcome: Result<(), PluginError> = match r {
        Ok(_) => Ok(()),
        Err(error) => Err(error),
    };
    let (rate_before, rate_after) = (old(rate_site)@, final(rate_site)@);
    let (vsync_before, vsync_after) = (old(vsync_site)@, final(vsync_site)@);
    let (stated, held, first) = choose|
        insert: ResourceInsert<H::TypeKey, I, H::Remove>,
        stated: AppCtx<H>,
        first: Result<(), PluginError>,
    |
        {
            &&& #[trigger] state.ensures((crate::fps::start_state(*config),), insert)
            &&& #[trigger] stated.resource_inserted(before, insert, first)
            &&& crate::host::chained(
                first,
                stated,
                last,
                exists|routed: AppCtx<H>|
                    {
                        &&& #[trigger] routed.routed(
                            stated,
                            crate::host::outward(payload, "latest"),
                        )
                        &&& crate::fps::route_used::<H, J, M, C, V, W, P, D, G, S>(
                            routed,
                            last,
                            writer,
                            container,
                            rate_before,
                            rate_after,
                            vsync_before,
                            vsync_after,
                            parts,
                            *old(resolver),
                            *final(resolver),
                            outcome,
                        )
                    },
                outcome,
            )
        };
    assert(state_asked::<H, I, K>(before, last, *config, state, stated, first, r));
    if first is Ok {
        let routed = choose|routed: AppCtx<H>|
            {
                &&& #[trigger] routed.routed(held, crate::host::outward(payload, "latest"))
                &&& crate::fps::route_used::<H, J, M, C, V, W, P, D, G, S>(
                    routed,
                    last,
                    writer,
                    container,
                    rate_before,
                    rate_after,
                    vsync_before,
                    vsync_after,
                    parts,
                    *old(resolver),
                    *final(resolver),
                    outcome,
                )
            };
        let (main, written, noted, second) = choose|
            main: MainLatestWriter<FpsSetting>,
            insert: ResourceInsert<H::TypeKey, J, H::Remove>,
            written: AppCtx<H>,
            second: Result<(), PluginError>,
        |
            {
                &&& #[trigger] writer.ensures((main,), insert)
                &&& #[trigger] written.resource_inserted(routed, insert, second)
                &&& crate::host::chained(
                    second,
                    written,
                    last,
                    exists|
                        sites: Arc<FpsSites>,
                        boxed: H::Container,
                        contained: AppCtx<H>,
                        third: Result<(), PluginError>,
                    |
                        {
                            &&& #[trigger] container.ensures((sites,), boxed)
                            &&& #[trigger] contained.container_registered(written, boxed, third)
                            &&& crate::host::chained(
                                third,
                                contained,
                                last,
                                crate::fps::hooks_registered::<H, V, W, P, D, G, S>(
                                    contained,
                                    last,
                                    sites,
                                    rate_before,
                                    rate_after,
                                    vsync_before,
                                    vsync_after,
                                    parts,
                                    *old(resolver),
                                    *final(resolver),
                                    outcome,
                                ),
                                outcome,
                            )
                        },
                    outcome,
                )
            };
        assert(main_end_asked::<H, J, M>(
            before,
            last,
            writer,
            rate_before,
            *old(resolver) is Some,
            main,
            written,
            second,
            r,
        ));
    }
}

/// What is refused on the way ends the build: a second container, a site that
/// is taken, or a resolver that is not there. Before the hooks are reached,
/// sites and resolver stay as they are, and a build that fails never serves the
/// topic that sets.
#[verifier::rlimit(60)]
#[verifier::spinoff_prover]
pub proof fn refused_step_ends_the_build<
    H: HostTypes,
    I: FnOnce() -> Result<(), PluginError>,
    K: FnOnce(FpsState) -> ResourceInsert<H::TypeKey, I, H::Remove>,
    J: FnOnce() -> Result<(), PluginError>,
    M: FnOnce(MainLatestWriter<FpsSetting>) -> ResourceInsert<H::TypeKey, J, H::Remove>,
    C: FnOnce(Arc<FpsSites>) -> H::Container,
    V: MethodResolver,
    W: FnOnce(InstalledHook<V::Memory>) -> H::AnyThread,
    P,
    D,
    G: FnOnce(DebugTopicRegistration<P, D>) -> Result<TopicId, PluginError>,
    S: FnOnce(DebugTopicRegistration<P, D>) -> Result<TopicId, PluginError>,
>(
    plugin: &FpsPlugin,
    ctx: &mut AppCtx<H>,
    config: &FpsSection,
    state: K,
    payload: &'static str,
    writer: M,
    container: C,
    rate_site: &mut HookSite<FpsSites>,
    vsync_site: &mut HookSite<FpsSites>,
    resolver: &mut Option<V>,
    parts: FpsParts<W, D, G, S, H::Update>,
    r: Result<LatestCell<FpsSetting>, PluginError>,
)
    requires
        old(ctx).wf(),
        call_ensures(
            FpsPlugin::build::<H, I, K, J, M, C, V, W, P, D, G, S>,
            (
                plugin,
                ctx,
                config,
                state,
                payload,
                writer,
                container,
                rate_site,
                vsync_site,
                resolver,
                parts,
            ),
            r,
        ),
    ensures
        final(ctx).owner() == old(ctx).owner(),
        crate::host_laws::own_record(*old(ctx)).container is Some ==> r is Err && final(rate_site)@
            == old(rate_site)@ && final(vsync_site)@ == old(vsync_site)@ && *final(resolver)
            == *old(resolver),
        old(rate_site)@ is Some ==> r is Err && final(rate_site)@ == old(rate_site)@
            && final(vsync_site)@ == old(vsync_site)@ && *final(resolver) == *old(resolver),
        old(vsync_site)@ is Some ==> r is Err && final(vsync_site)@ == old(vsync_site)@,
        *old(resolver) is None ==> r is Err && *final(resolver) is None,
        r is Err ==> crate::host_laws::own_record(*final(ctx)).update@.len()
            <= crate::host_laws::own_record(*old(ctx)).update@.len() + 1,
        final(ctx).host().routes@.len() <= old(ctx).host().routes@.len() + 1,
{
}

// ---------------------------------------------------------------------------
// Defaults
// ---------------------------------------------------------------------------

/// Nothing is switched on by default.
pub proof fn everything_is_off_by_default(
    debug: DebugConfig,
    fps: FpsConfig,
    translation: TranslationConfig,
    recon: ReconConfig,
    all: RuntimeConfig,
    section: FpsSection,
    parsed: ParsedConfig,
)
    requires
        call_ensures(DebugConfig::default, (), debug),
        call_ensures(FpsConfig::default, (), fps),
        call_ensures(TranslationConfig::default, (), translation),
        call_ensures(ReconConfig::default, (), recon),
        call_ensures(RuntimeConfig::default, (), all),
        call_ensures(FpsSection::default, (), section),
        call_ensures(ParsedConfig::default, (), parsed),
    ensures
        !debug.enabled,
        !fps.unlock_fps,
        !translation.dump,
        !recon.enabled,
        !all.debug.enabled && !all.fps.unlock_fps && !all.translation.dump && !all.recon.enabled,
        !section.enabled && section.target == 0,
        !parsed.debug.enabled && !parsed.fps.enabled && parsed.fps.target == 0,
{
}

/// A token is given on the main thread only.
pub proof fn token_means_main_thread(predicate: i32, r: Option<MainThreadToken>)
    requires
        call_ensures(MainThreadToken::assume_main_thread, (predicate,), r),
    ensures
        predicate == 0 ==> r is None,
        predicate != 0 ==> r is Some,
{
}

/// Each plugin goes by its own name.
pub proof fn each_plugin_has_its_name(
    debug: &DebugPlugin,
    debug_name: &'static str,
    fps: &FpsPlugin,
    fps_name: &'static str,
    recon: &ReconPlugin,
    recon_name: &'static str,
)
    requires
        call_ensures(DebugPlugin::name, (debug,), debug_name),
        call_ensures(FpsPlugin::name, (fps,), fps_name),
        call_ensures(ReconPlugin::name, (recon,), recon_name),
    ensures
        debug_name@ == "debug"@,
        fps_name@ == "fps"@,
        recon_name@ == "recon"@,
{
}

} // verus!
