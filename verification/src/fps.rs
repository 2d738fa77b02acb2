//! Unity frame rate control.
//!
//! One hook site per Unity setter, resolved by target identity. The main
//! domain topics `fps.get` and `fps.set` update a target and a latest-value
//! route that the callback domain reads.

use std::sync::Arc;

use vstd::prelude::*;

use crate::backend::MethodResolver;
use crate::base::TopicId;
use crate::container::LatestCell;
use crate::debug_dispatch::DebugTopicRegistration;
use crate::debug_topic::DebugHandlerError;
use crate::error::{HookError, PluginError};
use crate::gate::GateBoard;
use crate::hook::{Callback, HandlerEnd, HookSite, HookTarget, InstalledHook, SiteInner};
use crate::host::{AppCtx, TopicParts};
use crate::manager::HostTypes;
use crate::method_slot::{TargetId, TargetView};
use crate::phase::{ResourceInsert, UpdateCtx};
use crate::route::{CallbackLatestReader, MainLatestWriter};
use crate::runtime_config::FpsSection;

verus! {

// ---------------------------------------------------------------------------
// Targets
// ---------------------------------------------------------------------------

/// A static Unity setter of one `int`.
pub open spec fn setter_view(class: Seq<char>, method: Seq<char>) -> TargetView {
    TargetView {
        assembly: "UnityEngine.CoreModule.dll"@,
        namespace: "UnityEngine"@,
        class,
        method,
        param_count: 1,
        is_static: true,
        return_type: "void"@,
        parameter_types: seq!["int"@],
    }
}

/// What the frame rate setter is.
pub open spec fn rate_view() -> TargetView {
    setter_view("Application"@, "set_targetFrameRate"@)
}

/// What the v-sync setter is.
pub open spec fn vsync_view() -> TargetView {
    setter_view("QualitySettings"@, "set_vSyncCount"@)
}

/// Unity's static `Application.set_targetFrameRate(int)` target.
pub fn rate_target() -> (r: TargetId)
    ensures
        r@ == rate_view(),
{
    setter_target("Application", "set_targetFrameRate")
}

/// Unity's static `QualitySettings.set_vSyncCount(int)` target.
pub fn vsync_target() -> (r: TargetId)
    ensures
        r@ == vsync_view(),
{
    setter_target("QualitySettings", "set_vSyncCount")
}

fn setter_target(class: &'static str, method: &'static str) -> (r: TargetId)
    ensures
        r@ == setter_view(class@, method@),
{
    let parameters: &'static [&'static str] = &["int"];
    let r = TargetId {
        assembly: "UnityEngine.CoreModule.dll",
        namespace: "UnityEngine",
        class,
        method,
        param_count: 1,
        is_static: true,
        return_type: "void",
        parameter_types: parameters,
    };
    assert(r@.parameter_types =~= seq!["int"@]);
    r
}

/// The two setters are two targets.
pub proof fn setter_targets_are_distinct()
    ensures
        rate_view() != vsync_view(),
{
    reveal_strlit("Application");
    reveal_strlit("QualitySettings");
    assert(rate_view().class.len() != vsync_view().class.len());
}

/// Opaque IL2CPP `MethodInfo` trailing parameter for static setters.
pub struct MethodInfoOpaque {
    private: [u8; 0],
}

/// Address of a static Unity setter: `(int value, MethodInfo*) -> void`.
#[derive(Debug, Clone, Copy, PartialEq, Eq, Structural)]
pub struct SetterFn(pub usize);

/// The frame rate setter as a hook target.
pub struct RateTarget;

impl HookTarget for RateTarget {
    fn target() -> (r: TargetId)
        ensures
            r@ == rate_view(),
    {
        rate_target()
    }
}

/// The v-sync setter as a hook target.
pub struct VsyncTarget;

impl HookTarget for VsyncTarget {
    fn target() -> (r: TargetId)
        ensures
            r@ == vsync_view(),
    {
        vsync_target()
    }
}

// ---------------------------------------------------------------------------
// Callback domain
// ---------------------------------------------------------------------------

/// A frame rate on its way to the callback domain.
#[derive(Debug, Clone, Copy, PartialEq, Eq, Structural)]
pub struct FpsSetting(pub i32);

/// What the two replacements share.
pub struct FpsSites {
    pub setting: CallbackLatestReader<FpsSetting>,
}

/// The frame rate that is set instead of the game's: the latest setting, or
/// the target where there was none.
pub open spec fn rate_of(setting: Option<FpsSetting>, target: i32) -> i32 {
    match setting {
        Some(setting) => setting.0,
        None => target,
    }
}

/// The value that the setter behind `site` is to be called with: none where the
/// site is not installed, the game's own `value` while a gate is closed, and
/// otherwise `replaced`.
pub open spec fn value_set(
    site: Option<SiteInner<FpsSites>>,
    board: GateBoard,
    value: i32,
    replaced: i32,
) -> Option<i32> {
    match site {
        None => None,
        Some(inner) => if !inner.installed || inner.original_addr == 0 {
            None
        } else if crate::hook::gates_open(inner, board) {
            Some(replaced)
        } else {
            Some(value)
        },
    }
}

/// The setter may be called as it is to be called, and in no other way.
pub open spec fn setter_callable<O: FnOnce(usize, i32)>(
    site: Option<SiteInner<FpsSites>>,
    board: GateBoard,
    value: i32,
    replaced: i32,
    original: O,
) -> bool {
    value_set(site, board, value, replaced) matches Some(passed) ==> original.requires(
        (site->Some_0.original_addr, passed),
    )
}

/// `r` is the value that the setter behind `site` was called with.
pub open spec fn setter_called<O: FnOnce(usize, i32)>(
    site: Option<SiteInner<FpsSites>>,
    board: GateBoard,
    value: i32,
    replaced: i32,
    original: O,
    r: Option<i32>,
) -> bool {
    &&& r == value_set(site, board, value, replaced)
    &&& r matches Some(passed) ==> original.ensures((site->Some_0.original_addr, passed), ())
}

/// What a setter is called with instead of the game's value: the frame rate
/// that the main domain has set, or 0 where it sets none.
spec fn chosen(source: Option<(&LatestCell<FpsSetting>, i32)>) -> i32 {
    match source {
        Some((mailbox, target)) => rate_of(mailbox@, target),
        None => 0,
    }
}

/// The address and the value that a setter is to be called with, as the site
/// dispatches it.
fn decide_setter(
    site: &HookSite<FpsSites>,
    board: &GateBoard,
    value: i32,
    source: Option<(&LatestCell<FpsSetting>, i32)>,
) -> (r: Option<(usize, i32)>)
    requires
        crate::hook::site_on(site@, *board),
    ensures
        r == match value_set(site@, *board, value, chosen(source)) {
            Some(passed) => Some((site@->Some_0.original_addr, passed)),
            None => None,
        },
{
    let passthrough = |address: usize| -> (call: Option<(usize, i32)>)
        ensures
            call == Some((address, value))
        { Some((address, value)) };
    let fallback = || -> (call: Option<(usize, i32)>)
        ensures
            call is None
        { None };
    let handler = |callback: Callback<FpsSites>| -> (end: HandlerEnd<Option<(usize, i32)>>)
        requires
            callback.phase() is BeforeOriginal
        ensures
            end.phase() is AfterOriginal && end.result() == Some(
                Some((callback.original(), chosen(source))),
            )
        {
            let mut callback = callback;
            let replaced: i32 = match source {
                Some((mailbox, target)) => match callback.container().setting.try_read(
                    callback.cap(),
                    mailbox,
                ) {
                    Some(setting) => setting.0,
                    None => target,
                },
                None => 0,
            };
            let call = |address: usize| -> (call: (usize, i32))
                ensures
                    call == (address, replaced)
                { (address, replaced) };
            let decided = callback.call_original(call);
            callback.finish(Some(decided))
        };
    site.dispatch(board, passthrough, fallback, handler)
}

fn replace_setter<O: FnOnce(usize, i32)>(
    site: &HookSite<FpsSites>,
    board: &GateBoard,
    value: i32,
    source: Option<(&LatestCell<FpsSetting>, i32)>,
    original: O,
) -> (r: Option<i32>)
    requires
        crate::hook::site_on(site@, *board),
        setter_callable(site@, *board, value, chosen(source), original),
    ensures
        setter_called(site@, *board, value, chosen(source), original, r),
{
    match decide_setter(site, board, value, source) {
        Some((address, passed)) => {
            original(address, passed);
            Some(passed)
        },
        None => None,
    }
}

/// The replacement of the frame rate setter, called by the game with `value`.
/// `mailbox` and `target` are what the main domain has set; `original` calls
/// the setter at an address, and is called at most once. Says what the setter
/// was called with.
pub fn rate_replacement<O: FnOnce(usize, i32)>(
    site: &HookSite<FpsSites>,
    board: &GateBoard,
    mailbox: &LatestCell<FpsSetting>,
    target: i32,
    value: i32,
    original: O,
) -> (r: Option<i32>)
    requires
        crate::hook::site_on(site@, *board),
        setter_callable(site@, *board, value, rate_of(mailbox@, target), original),
    ensures
        setter_called(site@, *board, value, rate_of(mailbox@, target), original, r),
{
    replace_setter(site, board, value, Some((mailbox, target)), original)
}

/// The replacement of the v-sync setter: any count but 0 caps the effective
/// frame rate.
pub fn vsync_replacement<O: FnOnce(usize, i32)>(
    site: &HookSite<FpsSites>,
    board: &GateBoard,
    value: i32,
    original: O,
) -> (r: Option<i32>)
    requires
        crate::hook::site_on(site@, *board),
        setter_callable(site@, *board, value, 0, original),
    ensures
        setter_called(site@, *board, value, 0, original, r),
{
    replace_setter(site, board, value, None, original)
}

// ---------------------------------------------------------------------------
// Main domain
// ---------------------------------------------------------------------------

/// The target, and how often it was set.
#[derive(Debug, Clone, Copy, PartialEq, Eq, Structural)]
pub struct FpsState {
    pub target: i32,
    pub updates: u64,
}

/// The state that the plugin starts from: the configured target, never set.
pub open spec fn start_state(config: FpsSection) -> FpsState {
    FpsState { target: config.target, updates: 0 }
}

impl FpsState {
    /// The state that the plugin starts from.
    pub fn new(config: &FpsSection) -> (r: Self)
        ensures
            r == start_state(*config),
    {
        FpsState { target: config.target, updates: 0 }
    }
}

/// Until a target is set, the game's setter is called with the configured one,
/// and `fps.get` reports it.
pub proof fn configured_target_is_the_start(config: FpsSection, mailbox: Option<FpsSetting>)
    requires
        mailbox is None,
    ensures
        rate_of(mailbox, start_state(config).target) == config.target,
        start_state(config).target == config.target,
        start_state(config).updates == 0,
{
}

/// The main end of the route to the callback domain.
pub struct FpsWriter(pub MainLatestWriter<FpsSetting>);

/// The `fps.get` topic.
pub struct FpsGet;

/// The `fps.set` topic.
pub struct FpsSet;

/// Name of the [`FpsGet`] topic.
pub const GET_TOPIC: &'static str = "fps.get";

/// Name of the [`FpsSet`] topic.
pub const SET_TOPIC: &'static str = "fps.set";

/// Request of the `fps.get` topic.
#[derive(Debug, Clone, Copy, PartialEq, Eq, Structural)]
pub struct FpsGetRequest {}

/// Answer of the `fps.get` topic.
#[derive(Debug, Clone, Copy, PartialEq, Eq, Structural)]
pub struct FpsGetResponse {
    pub target: i32,
}

/// Request of the `fps.set` topic.
#[derive(Debug, Clone, Copy, PartialEq, Eq, Structural)]
pub struct FpsSetRequest {
    pub target: i32,
}

/// Answer of the `fps.set` topic.
#[derive(Debug, Clone, Copy, PartialEq, Eq, Structural)]
pub struct FpsSetResponse {
    pub applied: bool,
}

/// A target that may be set.
pub open spec fn settable(target: i32) -> bool {
    1 <= target <= 1000
}

/// The state after a request to set the target.
pub open spec fn state_after(state: FpsState, request: FpsSetRequest) -> FpsState {
    if settable(request.target) {
        FpsState { target: request.target, updates: state.updates.wrapping_add(1) }
    } else {
        state
    }
}

/// The mailbox after a request to set the target.
pub open spec fn mailbox_after(
    mailbox: Option<FpsSetting>,
    request: FpsSetRequest,
) -> Option<FpsSetting> {
    if settable(request.target) {
        Some(FpsSetting(request.target))
    } else {
        mailbox
    }
}

/// Answers the `fps.get` topic.
pub fn fps_get_handler(_request: FpsGetRequest, state: &FpsState) -> (r: Result<
    FpsGetResponse,
    DebugHandlerError,
>)
    ensures
        r is Ok,
        r->Ok_0 == (FpsGetResponse { target: state.target }),
{
    Ok(FpsGetResponse { target: state.target })
}

/// Answers the `fps.set` topic: a target in range is stored and sent to the
/// callback domain.
pub fn fps_set_handler(
    ctx: &UpdateCtx<'_>,
    request: FpsSetRequest,
    state: &mut FpsState,
    writer: &FpsWriter,
    mailbox: &mut LatestCell<FpsSetting>,
) -> (r: Result<FpsSetResponse, DebugHandlerError>)
    ensures
        *final(state) == state_after(*old(state), request),
        final(mailbox)@ == mailbox_after(old(mailbox)@, request),
        r is Ok <==> settable(request.target),
        r is Ok ==> r->Ok_0 == (FpsSetResponse { applied: true }),
        r is Err ==> r->Err_0.0@ == "target must be between 1 and 1000"@,
{
    if request.target < 1 || request.target > 1000 {
        return Err(DebugHandlerError("target must be between 1 and 1000".to_owned()));
    }
    state.target = request.target;
    state.updates = state.updates.wrapping_add(1);
    let _ = writer.0.try_send(ctx, mailbox, FpsSetting(request.target));
    Ok(FpsSetResponse { applied: true })
}

/// What was set is what the game's setter is called with from then on, and
/// what `fps.get` reports; a target out of range changes neither.
pub proof fn set_target_reaches_the_setter(
    state: FpsState,
    mailbox: Option<FpsSetting>,
    request: FpsSetRequest,
)
    ensures
        settable(request.target) ==> {
            &&& rate_of(mailbox_after(mailbox, request), state_after(state, request).target)
                == request.target
            &&& state_after(state, request).target == request.target
        },
        !settable(request.target) ==> {
            &&& rate_of(mailbox_after(mailbox, request), state_after(state, request).target)
                == rate_of(mailbox, state.target)
            &&& state_after(state, request) == state
        },
{
}

// ---------------------------------------------------------------------------
// Registration
// ---------------------------------------------------------------------------

/// Registers the two Unity setter hooks and the debug controls.
#[derive(Debug, Clone, Copy)]
pub struct FpsPlugin;

/// One setter hook: the address of its replacement, and what makes a restore
/// action of the installed hook.
pub struct SetterHook<W> {
    pub replacement: usize,
    pub wrap: W,
}

/// A setter hook was published on a site and installed: `site` became `after`.
/// A site that was published before refuses, and nothing changes.
pub open spec fn setter_hooked<
    H: HostTypes,
    T: HookTarget,
    V: MethodResolver,
    W: FnOnce(InstalledHook<V::Memory>) -> H::AnyThread,
>(
    before: AppCtx<H>,
    now: AppCtx<H>,
    sites: Arc<FpsSites>,
    site: Option<SiteInner<FpsSites>>,
    after: Option<SiteInner<FpsSites>>,
    hook: SetterHook<W>,
    resolver: Option<V>,
    asked: Option<V>,
    r: Result<(), PluginError>,
) -> bool {
    if site is Some {
        &&& r is Err && r->Err_0 == PluginError::Hook(HookError::SiteAlreadyRegistered)
        &&& after == site
        &&& now == before
        &&& asked == resolver
    } else {
        let published = Some(
            SiteInner {
                container: sites,
                runtime_gate: before.host().runtime_gate,
                plugin_gate: before.host().of(before.owner()).gate.handle(),
                replacement: hook.replacement,
                original_addr: 0,
                installed: false,
            },
        );
        now.hook_installed::<FpsSites, T, V, W>(
            before,
            published,
            after,
            resolver,
            asked,
            hook.wrap,
            r,
        )
    }
}

fn hook_setter<
    H: HostTypes,
    T: HookTarget,
    V: MethodResolver,
    W: FnOnce(InstalledHook<V::Memory>) -> H::AnyThread,
>(
    ctx: &mut AppCtx<H>,
    sites: Arc<FpsSites>,
    site: &mut HookSite<FpsSites>,
    hook: SetterHook<W>,
    resolver: &mut Option<V>,
) -> (r: Result<(), PluginError>)
    requires
        old(ctx).wf(),
        *old(resolver) is Some ==> crate::hook::installable(
            (*old(resolver))->Some_0,
            hook.replacement,
        ),
        forall|installed: InstalledHook<V::Memory>| #[trigger] hook.wrap.requires((installed,)),
    ensures
        setter_hooked::<H, T, V, W>(
            *old(ctx),
            *final(ctx),
            sites,
            old(site)@,
            final(site)@,
            hook,
            *old(resolver),
            *final(resolver),
            r,
        ),
{
    let builder = ctx.hook::<FpsSites>().container(sites);
    let published = match builder.handler(site, hook.replacement) {
        Ok(published) => published,
        Err(error) => return Err(PluginError::Hook(error)),
    };
    ctx.install_hook::<FpsSites, T, V, W>(published, site, resolver, hook.wrap)
}

/// The two debug topics were registered, `fps.get` first.
pub open spec fn topics_registered<
    H: HostTypes,
    P,
    D,
    G: FnOnce(DebugTopicRegistration<P, D>) -> Result<TopicId, PluginError>,
    S: FnOnce(DebugTopicRegistration<P, D>) -> Result<TopicId, PluginError>,
>(
    before: AppCtx<H>,
    last: AppCtx<H>,
    get: TopicParts<D, G, H::Update>,
    set: TopicParts<D, S, H::Update>,
    r: Result<(), PluginError>,
) -> bool {
    exists|middle: AppCtx<H>, first: Result<(), PluginError>|
        {
            &&& #[trigger] middle.topic_registered::<P, D, G>(
                before,
                GET_TOPIC,
                get.decode,
                false,
                get.register,
                get.system,
                first,
            )
            &&& crate::host::chained(
                first,
                middle,
                last,
                last.topic_registered::<P, D, S>(
                    middle,
                    SET_TOPIC,
                    set.decode,
                    false,
                    set.register,
                    set.system,
                    r,
                ),
                r,
            )
        }
}

/// Both setter hooks were published and installed, the frame rate first, and
/// the topics were registered after them.
pub open spec fn hooks_registered<
    H: HostTypes,
    V: MethodResolver,
    W: FnOnce(InstalledHook<V::Memory>) -> H::AnyThread,
    P,
    D,
    G: FnOnce(DebugTopicRegistration<P, D>) -> Result<TopicId, PluginError>,
    S: FnOnce(DebugTopicRegistration<P, D>) -> Result<TopicId, PluginError>,
>(
    before: AppCtx<H>,
    last: AppCtx<H>,
    sites: Arc<FpsSites>,
    rate_site: Option<SiteInner<FpsSites>>,
    rate_after: Option<SiteInner<FpsSites>>,
    vsync_site: Option<SiteInner<FpsSites>>,
    vsync_after: Option<SiteInner<FpsSites>>,
    parts: FpsParts<W, D, G, S, H::Update>,
    resolver: Option<V>,
    asked: Option<V>,
    r: Result<(), PluginError>,
) -> bool {
    exists|rated: AppCtx<H>, between: Option<V>, first: Result<(), PluginError>|
        {
            &&& #[trigger] setter_hooked::<H, RateTarget, V, W>(
                before,
                rated,
                sites,
                rate_site,
                rate_after,
                parts.rate,
                resolver,
                between,
                first,
            )
            &&& first is Err ==> vsync_after == vsync_site && asked == between
            &&& crate::host::chained(
                first,
                rated,
                last,
                exists|synced: AppCtx<H>, second: Result<(), PluginError>|
                    {
                        &&& #[trigger] setter_hooked::<H, VsyncTarget, V, W>(
                            rated,
                            synced,
                            sites,
                            vsync_site,
                            vsync_after,
                            parts.vsync,
                            between,
                            asked,
                            second,
                        )
                        &&& crate::host::chained(
                            second,
                            synced,
                            last,
                            topics_registered::<H, P, D, G, S>(
                                synced,
                                last,
                                parts.get,
                                parts.set,
                                r,
                            ),
                            r,
                        )
                    },
                r,
            )
        }
}

/// The outside pieces of the hooks and the topics.
pub struct FpsParts<W, D, G, S, U> {
    pub rate: SetterHook<W>,
    pub vsync: SetterHook<W>,
    pub get: TopicParts<D, G, U>,
    pub set: TopicParts<D, S, U>,
}

impl FpsPlugin {
    /// Display name used by the inventory and observability events.
    pub fn name(&self) -> (r: &'static str)
        ensures
            r@ == "fps"@,
    {
        "fps"
    }

    fn register_topics<
        H: HostTypes,
        P,
        D,
        G: FnOnce(DebugTopicRegistration<P, D>) -> Result<TopicId, PluginError>,
        S: FnOnce(DebugTopicRegistration<P, D>) -> Result<TopicId, PluginError>,
    >(
        ctx: &mut AppCtx<H>,
        get: TopicParts<D, G, H::Update>,
        set: TopicParts<D, S, H::Update>,
    ) -> (r: Result<(), PluginError>)
        requires
            old(ctx).wf(),
            forall|registration: DebugTopicRegistration<P, D>| #[trigger]
                get.register.requires((registration,)),
            forall|registration: DebugTopicRegistration<P, D>| #[trigger]
                set.register.requires((registration,)),
        ensures
            topics_registered::<H, P, D, G, S>(*old(ctx), *final(ctx), get, set, r),
    {
        let first = ctx.register_main_debug::<P, D, G>(
            GET_TOPIC,
            get.decode,
            get.register,
            get.system,
        );
        let ghost middle = *ctx;
        let ghost outcome = first;
        assert(middle.topic_registered::<P, D, G>(
            *old(ctx),
            GET_TOPIC,
            get.decode,
            false,
            get.register,
            get.system,
            outcome,
        ));
        match first {
            Ok(()) => ctx.register_main_debug::<P, D, S>(
                SET_TOPIC,
                set.decode,
                set.register,
                set.system,
            ),
            Err(error) => Err(error),
        }
    }

    fn register_hooks<
        H: HostTypes,
        V: MethodResolver,
        W: FnOnce(InstalledHook<V::Memory>) -> H::AnyThread,
        P,
        D,
        G: FnOnce(DebugTopicRegistration<P, D>) -> Result<TopicId, PluginError>,
        S: FnOnce(DebugTopicRegistration<P, D>) -> Result<TopicId, PluginError>,
    >(
        ctx: &mut AppCtx<H>,
        sites: Arc<FpsSites>,
        rate_site: &mut HookSite<FpsSites>,
        vsync_site: &mut HookSite<FpsSites>,
        resolver: &mut Option<V>,
        parts: FpsParts<W, D, G, S, H::Update>,
    ) -> (r: Result<(), PluginError>)
        requires
            old(ctx).wf(),
            parts_callable::<H, V, W, P, D, G, S>(*old(resolver), parts),
        ensures
            hooks_registered::<H, V, W, P, D, G, S>(
                *old(ctx),
                *final(ctx),
                sites,
                old(rate_site)@,
                final(rate_site)@,
                old(vsync_site)@,
                final(vsync_site)@,
                parts,
                *old(resolver),
                *final(resolver),
                r,
            ),
    {
        let shared = Arc::clone(&sites);
        let first = hook_setter::<H, RateTarget, V, W>(
            ctx,
            shared,
            rate_site,
            parts.rate,
            resolver,
        );
        let ghost rated = *ctx;
        let ghost between = *resolver;
        let ghost outcome = first;
        assert(setter_hooked::<H, RateTarget, V, W>(
            *old(ctx),
            rated,
            sites,
            old(rate_site)@,
            rate_site@,
            parts.rate,
            *old(resolver),
            between,
            outcome,
        ));
        if let Err(error) = first {
            return Err(error);
        }
        let second = hook_setter::<H, VsyncTarget, V, W>(
            ctx,
            sites,
            vsync_site,
            parts.vsync,
            resolver,
        );
        let ghost synced = *ctx;
        let ghost verdict = second;
        assert(setter_hooked::<H, VsyncTarget, V, W>(
            rated,
            synced,
            sites,
            old(vsync_site)@,
            vsync_site@,
            parts.vsync,
            between,
            *resolver,
            verdict,
        ));
        match second {
            Ok(()) => Self::register_topics::<H, P, D, G, S>(ctx, parts.get, parts.set),
            Err(error) => Err(error),
        }
    }

    /// Registers the state, the route with its main end, the container, the two
    /// hooks and the two topics, in this order; the first that fails ends it.
    /// `state` makes a resource of the state that `config` starts from, `writer`
    /// one of the main end, `container` a container of what the replacements
    /// share, and `payload` names the route's payload. Hands out the mailbox of
    /// the route.
    pub fn build<
        H: HostTypes,
        I: FnOnce() -> Result<(), PluginError>,
        K: FnOnce(FpsState) -> ResourceInsert<H::TypeKey, I, H::Remove>,
        J: FnOnce() -> Result<(), PluginError>,
        M: FnOnce(MainLatestWriter<FpsSetting>) -> ResourceInsert<H::TypeKey, J, H::Remove>,
        C: FnOnce(Arc<FpsSites>) -> H::Container,
        V: MethodResolver,
        W: FnOnce(InstalledHook<V::Memory>) -> H::AnyThread,
        P,
        D,
        G: FnOnce(DebugTopicRegistration<P, D>) -> Result<TopicId, PluginError>,
        S: FnOnce(DebugTopicRegistration<P, D>) -> Result<TopicId, PluginError>,
    >(
        &self,
        ctx: &mut AppCtx<H>,
        config: &FpsSection,
        state: K,
        payload: &'static str,
        writer: M,
        container: C,
        rate_site: &mut HookSite<FpsSites>,
        vsync_site: &mut HookSite<FpsSites>,
        resolver: &mut Option<V>,
        parts: FpsParts<W, D, G, S, H::Update>,
    ) -> (r: Result<LatestCell<FpsSetting>, PluginError>)
        requires
            old(ctx).wf(),
            old(ctx).host().of(old(ctx).owner()).inserted.len() + 1 < u64::MAX,
            old(ctx).host().routes@.len() < u64::MAX,
            state.requires((start_state(*config),)),
            forall|insert: ResourceInsert<H::TypeKey, I, H::Remove>| #[trigger]
                state.ensures((start_state(*config),), insert) ==> insert.insert.requires(()),
            forall|main: MainLatestWriter<FpsSetting>| #[trigger] writer.requires((main,)),
            forall|
                main: MainLatestWriter<FpsSetting>,
                insert: ResourceInsert<H::TypeKey, J, H::Remove>,
            | #[trigger]
                writer.ensures((main,), insert) ==> insert.insert.requires(()),
            forall|sites: Arc<FpsSites>| #[trigger] container.requires((sites,)),
            parts_callable::<H, V, W, P, D, G, S>(*old(resolver), parts),
        ensures
            r is Ok ==> r->Ok_0@ is None,
            fps_built::<H, I, K, J, M, C, V, W, P, D, G, S>(
                *old(ctx),
                *final(ctx),
                *config,
                state,
                payload,
                writer,
                container,
                old(rate_site)@,
                final(rate_site)@,
                old(vsync_site)@,
                final(vsync_site)@,
                parts,
                *old(resolver),
                *final(resolver),
                match r {
                    Ok(_) => Ok(()),
                    Err(error) => Err(error),
                },
            ),
    {
        let start = FpsState::new(config);
        let insert = state(start);
        let ghost held_state = insert;
        assert(state.ensures((start_state(*config),), held_state));
        let first = ctx.insert_resource(insert);
        let ghost stated = *ctx;
        let ghost first_outcome = first;
        assert(stated.resource_inserted(*old(ctx), held_state, first_outcome));
        if let Err(error) = first {
            return Err(error);
        }
        let (main, setting, mailbox) = ctx.main_to_callback_latest::<FpsSetting>(payload);
        let ghost routed = *ctx;
        assert(routed.routed(stated, crate::host::outward(payload, "latest")));
        let ghost end = main;
        let insert = writer(main);
        let ghost resource = insert;
        assert(writer.ensures((end,), resource));
        let second = ctx.insert_resource(insert);
        let ghost written = *ctx;
        let ghost second_outcome = second;
        assert(written.resource_inserted(routed, resource, second_outcome));
        if let Err(error) = second {
            return Err(error);
        }
        let sites = Arc::new(FpsSites { setting });
        let boxed = container(Arc::clone(&sites));
        let ghost held = boxed;
        assert(container.ensures((sites,), held));
        let third = ctx.register_container(boxed);
        let ghost contained = *ctx;
        let ghost third_outcome = third;
        assert(contained.container_registered(written, held, third_outcome));
        if let Err(error) = third {
            return Err(error);
        }
        match Self::register_hooks::<H, V, W, P, D, G, S>(
            ctx,
            sites,
            rate_site,
            vsync_site,
            resolver,
            parts,
        ) {
            Ok(()) => Ok(mailbox),
            Err(error) => Err(error),
        }
    }
}

/// The whole registration: each step, and where it failed nothing after it.
pub open spec fn fps_built<
    H: HostTypes,
    I: FnOnce() -> Result<(), PluginError>,
    K: FnOnce(FpsState) -> ResourceInsert<H::TypeKey, I, H::Remove>,
    J: FnOnce() -> Result<(), PluginError>,
    M: FnOnce(MainLatestWriter<FpsSetting>) -> ResourceInsert<H::TypeKey, J, H::Remove>,
    C: FnOnce(Arc<FpsSites>) -> H::Container,
    V: MethodResolver,
    W: FnOnce(InstalledHook<V::Memory>) -> H::AnyThread,
    P,
    D,
    G: FnOnce(DebugTopicRegistration<P, D>) -> Result<TopicId, PluginError>,
    S: FnOnce(DebugTopicRegistration<P, D>) -> Result<TopicId, PluginError>,
>(
    before: AppCtx<H>,
    last: AppCtx<H>,
    config: FpsSection,
    state: K,
    payload: &'static str,
    writer: M,
    container: C,
    rate_site: Option<SiteInner<FpsSites>>,
    rate_after: Option<SiteInner<FpsSites>>,
    vsync_site: Option<SiteInner<FpsSites>>,
    vsync_after: Option<SiteInner<FpsSites>>,
    parts: FpsParts<W, D, G, S, H::Update>,
    resolver: Option<V>,
    asked: Option<V>,
    r: Result<(), PluginError>,
) -> bool {
    exists|
        insert: ResourceInsert<H::TypeKey, I, H::Remove>,
        stated: AppCtx<H>,
        first: Result<(), PluginError>,
    |
        {
            &&& #[trigger] state.ensures((start_state(config),), insert)
            &&& #[trigger] stated.resource_inserted(before, insert, first)
            &&& first is Err ==> rate_after == rate_site && vsync_after == vsync_site && asked
                == resolver
            &&& crate::host::chained(
                first,
                stated,
                last,
                exists|routed: AppCtx<H>|
                    {
                        &&& #[trigger] routed.routed(
                            stated,
                            crate::host::outward(payload, "latest"),
                        )
                        &&& route_used::<H, J, M, C, V, W, P, D, G, S>(
                            routed,
                            last,
                            writer,
                            container,
                            rate_site,
                            rate_after,
                            vsync_site,
                            vsync_after,
                            parts,
                            resolver,
                            asked,
                            r,
                        )
                    },
                r,
            )
        }
}

/// The registration from the open route on. What the main side writes through
/// and what the callbacks read through are the two ends of one route.
pub open spec fn route_used<
    H: HostTypes,
    J: FnOnce() -> Result<(), PluginError>,
    M: FnOnce(MainLatestWriter<FpsSetting>) -> ResourceInsert<H::TypeKey, J, H::Remove>,
    C: FnOnce(Arc<FpsSites>) -> H::Container,
    V: MethodResolver,
    W: FnOnce(InstalledHook<V::Memory>) -> H::AnyThread,
    P,
    D,
    G: FnOnce(DebugTopicRegistration<P, D>) -> Result<TopicId, PluginError>,
    S: FnOnce(DebugTopicRegistration<P, D>) -> Result<TopicId, PluginError>,
>(
    routed: AppCtx<H>,
    last: AppCtx<H>,
    writer: M,
    container: C,
    rate_site: Option<SiteInner<FpsSites>>,
    rate_after: Option<SiteInner<FpsSites>>,
    vsync_site: Option<SiteInner<FpsSites>>,
    vsync_after: Option<SiteInner<FpsSites>>,
    parts: FpsParts<W, D, G, S, H::Update>,
    resolver: Option<V>,
    asked: Option<V>,
    r: Result<(), PluginError>,
) -> bool {
    exists|
        main: MainLatestWriter<FpsSetting>,
        insert: ResourceInsert<H::TypeKey, J, H::Remove>,
        written: AppCtx<H>,
        second: Result<(), PluginError>,
    |
        {
            &&& #[trigger] writer.ensures((main,), insert)
            &&& #[trigger] written.resource_inserted(routed, insert, second)
            &&& second is Err ==> rate_after == rate_site && vsync_after == vsync_site && asked
                == resolver
            &&& crate::host::chained(
                second,
                written,
                last,
                exists|
                    sites: Arc<FpsSites>,
                    boxed: H::Container,
                    contained: AppCtx<H>,
                    third: Result<(), PluginError>,
                |
                    {
                        &&& sites.setting.route() == main.route()
                        &&& #[trigger] container.ensures((sites,), boxed)
                        &&& #[trigger] contained.container_registered(written, boxed, third)
                        &&& third is Err ==> rate_after == rate_site && vsync_after == vsync_site
                            && asked == resolver
                        &&& crate::host::chained(
                            third,
                            contained,
                            last,
                            hooks_registered::<H, V, W, P, D, G, S>(
                                contained,
                                last,
                                sites,
                                rate_site,
                                rate_after,
                                vsync_site,
                                vsync_after,
                                parts,
                                resolver,
                                asked,
                                r,
                            ),
                            r,
                        )
                    },
                r,
            )
        }
}

/// The outside pieces can be called.
pub open spec fn parts_callable<
    H: HostTypes,
    V: MethodResolver,
    W: FnOnce(InstalledHook<V::Memory>) -> H::AnyThread,
    P,
    D,
    G: FnOnce(DebugTopicRegistration<P, D>) -> Result<TopicId, PluginError>,
    S: FnOnce(DebugTopicRegistration<P, D>) -> Result<TopicId, PluginError>,
>(resolver: Option<V>, parts: FpsParts<W, D, G, S, H::Update>) -> bool {
    &&& resolver is Some ==> crate::hook::installable(resolver->Some_0, parts.rate.replacement)
    &&& resolver is Some ==> crate::hook::installable(resolver->Some_0, parts.vsync.replacement)
    &&& forall|hook: InstalledHook<V::Memory>| #[trigger] parts.rate.wrap.requires((hook,))
    &&& forall|hook: InstalledHook<V::Memory>| #[trigger] parts.vsync.wrap.requires((hook,))
    &&& forall|registration: DebugTopicRegistration<P, D>| #[trigger]
        parts.get.register.requires((registration,))
    &&& forall|registration: DebugTopicRegistration<P, D>| #[trigger]
        parts.set.register.requires((registration,))
}

/// A plugin that was registered can be undone by its ledger: both setters are
/// hooked and can reach their originals, and the record of the owner holds one
/// restore action for each of them, both resources, the route, the container
/// and both topics with their systems.
pub proof fn registered_plugin_is_in_the_ledger<
    H: HostTypes,
    I: FnOnce() -> Result<(), PluginError>,
    K: FnOnce(FpsState) -> ResourceInsert<H::TypeKey, I, H::Remove>,
    J: FnOnce() -> Result<(), PluginError>,
    M: FnOnce(MainLatestWriter<FpsSetting>) -> ResourceInsert<H::TypeKey, J, H::Remove>,
    C: FnOnce(Arc<FpsSites>) -> H::Container,
    V: MethodResolver,
    W: FnOnce(InstalledHook<V::Memory>) -> H::AnyThread,
    P,
    D,
    G: FnOnce(DebugTopicRegistration<P, D>) -> Result<TopicId, PluginError>,
    S: FnOnce(DebugTopicRegistration<P, D>) -> Result<TopicId, PluginError>,
>(
    before: AppCtx<H>,
    last: AppCtx<H>,
    config: FpsSection,
    state: K,
    payload: &'static str,
    writer: M,
    container: C,
    rate_site: Option<SiteInner<FpsSites>>,
    rate_after: Option<SiteInner<FpsSites>>,
    vsync_site: Option<SiteInner<FpsSites>>,
    vsync_after: Option<SiteInner<FpsSites>>,
    parts: FpsParts<W, D, G, S, H::Update>,
    resolver: Option<V>,
    asked: Option<V>,
)
    requires
        before.wf(),
        fps_built::<H, I, K, J, M, C, V, W, P, D, G, S>(
            before,
            last,
            config,
            state,
            payload,
            writer,
            container,
            rate_site,
            rate_after,
            vsync_site,
            vsync_after,
            parts,
            resolver,
            asked,
            Ok(()),
        ),
    ensures
        rate_after matches Some(inner) && inner.installed && inner.original_addr != 0,
        vsync_after matches Some(inner) && inner.installed && inner.original_addr != 0,
        ({
            let old_record = before.host().of(before.owner());
            let new_record = last.host().of(before.owner());
            &&& new_record.effects@.len() == old_record.effects@.len() + 2
            &&& new_record.inserted@.len() == old_record.inserted@.len() + 2
            &&& new_record.route_ids@.len() == old_record.route_ids@.len() + 1
            &&& new_record.topic_ids@.len() == old_record.topic_ids@.len() + 2
            &&& new_record.update@.len() == old_record.update@.len() + 2
            &&& old_record.container is None
            &&& new_record.container is Some
        }),
{
}

} // verus!
