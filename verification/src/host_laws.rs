//! What registering through a plugin's context does, and to whom.

use vstd::prelude::*;

use crate::backend::MethodResolver;
use crate::base::{DataRoot, OwnerId, TopicId};
use crate::config::RuntimeConfig;
use crate::container::{BoundedQueue, CallbackPayload, LatestCell, SharedSlot};
use crate::debug_dispatch::DebugTopicRegistration;
use crate::debug_relay::CallbackDebugEndpoints;
use crate::error::{HookError, PluginError};
use crate::gate::{GateBoard, GateReader, GateState};
use crate::hook::{
    HookBuilder, HookSite, HookTarget, InstalledHook, Published, SiteInner, Unpublished,
};
use crate::host::{AppCtx, PluginHost};
use crate::manager::{HostTypes, PluginManager, PluginRecord, PluginState};
use crate::method_slot::{MethodRef, TargetId};
use crate::phase::{
    insertion_allowed, ResourceInsert, RestoreAction, StartupCtx, StartupRegistrar,
};
use crate::route::{
    CallbackBoundedReader, CallbackBoundedWriter, CallbackLatestReader, CallbackLatestWriter,
    CallbackSharedReader, CallbackSharedWriter, MainBoundedReader, MainBoundedWriter,
    MainLatestReader, MainLatestWriter, MainSharedReader, MainSharedWriter,
};
use crate::routes::{MessageRegister, RouteDirection};

verus! {

// ---------------------------------------------------------------------------
// Owners
// ---------------------------------------------------------------------------

/// A new owner has an id that no one had, its name, a gate of its own that is
/// closed, and nothing registered; the owners before it are as they were.
pub proof fn new_owner_starts_with_nothing<H: HostTypes>(
    manager: &mut PluginManager<H>,
    name: &'static str,
    board: &mut GateBoard,
    id: OwnerId,
    record: &PluginRecord<H>,
    active: bool,
)
    requires
        old(manager).wf(),
        old(manager)@.len() < u64::MAX,
        call_ensures(PluginManager::<H>::begin_owner, (manager, name, board), id),
        call_ensures(PluginManager::<H>::record, (&*final(manager), id), record),
        call_ensures(PluginManager::<H>::is_active, (&*final(manager), id), active),
    ensures
        final(manager).wf(),
        final(manager)@.len() == old(manager)@.len() + 1,
        forall|i: int|
            0 <= i < old(manager)@.len() ==> #[trigger] final(manager)@[i] == old(manager)@[i],
        forall|other: OwnerId| #[trigger] old(manager).knows(other) ==> other != id,
        final(manager).knows(id),
        active,
        record.id == id,
        record.name == name,
        record.state == PluginState::Active,
        record.startup.len() == 0,
        record.update.len() == 0,
        record.effects.len() == 0,
        record.inserted.len() == 0,
        record.container is None,
        record.route_ids.len() == 0,
        record.topic_ids.len() == 0,
        final(board)@.len() == old(board)@.len() + 1,
        record.gate.handle().state(*final(board)) == GateState::Closed,
        forall|i: int| 0 <= i < old(board)@.len() ==> #[trigger] final(board)@[i] == old(board)@[i],
{
    assert forall|i: int| 0 <= i < old(manager)@.len() implies #[trigger] final(manager)@[i]
        == old(manager)@[i] by {
        assert(final(manager)@.drop_last()[i] == final(manager)@[i]);
    }
}

/// `picked` are the places of the active owners, in order.
pub open spec fn are_active<H: HostTypes>(picked: Seq<int>, records: Seq<PluginRecord<H>>) -> bool {
    &&& forall|i: int|
        0 <= i < records.len() ==> ((#[trigger] records[i]).state == PluginState::Active
            <==> picked.contains(i))
    &&& forall|k: int| 0 <= k < picked.len() ==> 0 <= #[trigger] picked[k] < records.len()
    &&& forall|j: int, k: int| 0 <= j < k < picked.len() ==> picked[j] < picked[k]
}

spec fn active_places<H: HostTypes>(records: Seq<PluginRecord<H>>, count: nat) -> Seq<int>
    decreases count,
{
    if count == 0 {
        Seq::empty()
    } else {
        let before = active_places(records, (count - 1) as nat);
        if records[count - 1].state is Active {
            before.push(count - 1)
        } else {
            before
        }
    }
}

proof fn lemma_active_places<H: HostTypes>(records: Seq<PluginRecord<H>>, count: nat)
    requires
        count <= records.len(),
    ensures
        are_active(active_places(records, count), records.take(count as int)),
        crate::manager::active_ids(records, count).len() == active_places(records, count).len(),
        forall|k: int|
            0 <= k < active_places(records, count).len() ==> #[trigger] crate::manager::active_ids(
                records,
                count,
            )[k] == records[active_places(records, count)[k]].id,
    decreases count,
{
    let picked = active_places(records, count);
    if count > 0 {
        let last = count - 1;
        let before = active_places(records, last as nat);
        let shorter = records.take(last);
        let longer = records.take(count as int);
        lemma_active_places(records, last as nat);
        assert forall|i: int| 0 <= i < longer.len() implies ((#[trigger] longer[i]).state
            == PluginState::Active <==> picked.contains(i)) by {
            if i < last {
                assert(shorter[i] == longer[i]);
                if before.contains(i) {
                    let k = choose|k: int| 0 <= k < before.len() && before[k] == i;
                    assert(picked[k] == i);
                }
                if picked.contains(i) {
                    let k = choose|k: int| 0 <= k < picked.len() && picked[k] == i;
                    assert(before[k] == i);
                }
            } else if records[last].state is Active {
                assert(picked[before.len() as int] == i);
            } else {
                assert(longer[i] == records[last]);
            }
        }
    }
}

/// The ids of the active owners are listed, of all of them and of no other, in
/// the order in which they registered.
pub proof fn active_owners_are_listed<H: HostTypes>(
    manager: &PluginManager<H>,
    ids: Vec<OwnerId>,
    records: &[PluginRecord<H>],
) -> (picked: Seq<int>)
    requires
        call_ensures(PluginManager::<H>::active_owner_ids, (manager,), ids),
        call_ensures(PluginManager::<H>::records, (manager,), records),
    ensures
        records@ == manager@,
        are_active(picked, manager@),
        ids.len() == picked.len(),
        forall|k: int| 0 <= k < ids.len() ==> #[trigger] ids@[k] == manager@[picked[k]].id,
{
    lemma_active_places(manager@, manager@.len());
    assert(manager@.take(manager@.len() as int) =~= manager@);
    active_places(manager@, manager@.len())
}

/// The record of an owner is the one that bears its id, and it is active unless
/// it has retired.
pub proof fn record_is_the_one_of_the_owner<H: HostTypes>(
    manager: &PluginManager<H>,
    id: OwnerId,
    record: &PluginRecord<H>,
    active: bool,
)
    requires
        manager.wf(),
        manager.knows(id),
        call_ensures(PluginManager::<H>::record, (manager, id), record),
        call_ensures(PluginManager::<H>::is_active, (manager, id), active),
    ensures
        record.id == id,
        manager@.contains(*record),
        active <==> record.state == PluginState::Active,
        forall|i: int| 0 <= i < record.inserted.len() ==> (#[trigger] record.inserted@[i]).order == i,
{
    assert(manager@[id.0 as int] == *record);
}

// ---------------------------------------------------------------------------
// Registering
// ---------------------------------------------------------------------------

/// Nothing of a host was changed but the record of `owner`.
pub open spec fn only_owner_changed<H: HostTypes>(
    before: PluginHost<H>,
    after: PluginHost<H>,
    owner: OwnerId,
) -> bool {
    &&& only_owner_and_routes_changed(before, after, owner)
    &&& after.routes@ == before.routes@
}

/// Nothing of a host was changed but the record of `owner` and the routes.
pub open spec fn only_owner_and_routes_changed<H: HostTypes>(
    before: PluginHost<H>,
    after: PluginHost<H>,
    owner: OwnerId,
) -> bool {
    &&& after.plugins.wf() && after.routes.wf()
    &&& after.plugins@.len() == before.plugins@.len()
    &&& forall|i: int|
        0 <= i < before.plugins@.len() && i != owner.0 ==> #[trigger] after.plugins@[i]
            == before.plugins@[i]
    &&& after.runtime_gate == before.runtime_gate
    &&& after.config == before.config
    &&& after.data_root == before.data_root
}

/// `after` is `before` but for what the named lists hold.
pub open spec fn identity_kept<H: HostTypes>(
    before: PluginRecord<H>,
    after: PluginRecord<H>,
) -> bool {
    &&& after.id == before.id
    &&& after.name == before.name
    &&& after.state == before.state
    &&& after.gate == before.gate
}

/// The systems of `before` are those of `after`.
pub open spec fn systems_kept<H: HostTypes>(before: PluginRecord<H>, after: PluginRecord<H>) -> bool {
    &&& after.startup@ == before.startup@
    &&& after.update@ == before.update@
}

/// What rollback undoes of `before` is what it undoes of `after`.
pub open spec fn ledgers_kept<H: HostTypes>(before: PluginRecord<H>, after: PluginRecord<H>) -> bool {
    &&& after.effects@ == before.effects@
    &&& after.inserted@ == before.inserted@
}

/// The container, the routes and the topics of `before` are those of `after`.
pub open spec fn ends_kept<H: HostTypes>(before: PluginRecord<H>, after: PluginRecord<H>) -> bool {
    &&& after.container == before.container
    &&& after.route_ids@ == before.route_ids@
    &&& after.topic_ids@ == before.topic_ids@
}

/// The record of the owner of a context.
pub open spec fn own_record<H: HostTypes>(ctx: AppCtx<H>) -> PluginRecord<H> {
    ctx.host().plugins@[ctx.owner().0 as int]
}

/// The context is of the same owner, and only the owner's record was changed.
pub open spec fn own_change<H: HostTypes>(before: AppCtx<H>, after: AppCtx<H>) -> bool {
    &&& after.wf()
    &&& after.owner() == before.owner()
    &&& only_owner_changed(before.host(), after.host(), before.owner())
    &&& identity_kept(own_record(before), own_record(after))
}

/// Systems are run in the order in which their owner added them.
pub proof fn added_systems_come_last<H: HostTypes>(
    started: &mut AppCtx<H>,
    startup: H::Startup,
    updated: &mut AppCtx<H>,
    update: H::Update,
)
    requires
        old(started).wf(),
        old(updated).wf(),
        call_ensures(AppCtx::<H>::add_startup_system, (started, startup), ()),
        call_ensures(AppCtx::<H>::add_update_system, (updated, update), ()),
    ensures
        own_change(*old(started), *final(started)),
        own_record(*final(started)).startup@ == own_record(*old(started)).startup@ + seq![startup],
        own_record(*final(started)).update@ == own_record(*old(started)).update@,
        ledgers_kept(own_record(*old(started)), own_record(*final(started))),
        ends_kept(own_record(*old(started)), own_record(*final(started))),
        own_change(*old(updated), *final(updated)),
        own_record(*final(updated)).update@ == own_record(*old(updated)).update@ + seq![update],
        own_record(*final(updated)).startup@ == own_record(*old(updated)).startup@,
        ledgers_kept(own_record(*old(updated)), own_record(*final(updated))),
        ends_kept(own_record(*old(updated)), own_record(*final(updated))),
{
    assert(own_record(*old(started)).startup@.push(startup) =~= own_record(*old(started)).startup@
        + seq![startup]);
    assert(own_record(*old(updated)).update@.push(update) =~= own_record(*old(updated)).update@
        + seq![update]);
}

/// The insertion is asked once and answered as it answered. One that went well
/// is numbered behind those before it in the owner's ledger, with what removes
/// it; one that did not leaves no trace.
pub proof fn inserted_resource_can_be_removed<
    H: HostTypes,
    I: FnOnce() -> Result<(), PluginError>,
>(
    ctx: &mut AppCtx<H>,
    insert: ResourceInsert<H::TypeKey, I, H::Remove>,
    r: Result<(), PluginError>,
)
    requires
        old(ctx).wf(),
        own_record(*old(ctx)).inserted.len() < u64::MAX,
        call_ensures(AppCtx::<H>::insert_resource::<I>, (ctx, insert), r),
    ensures
        insert.insert.ensures((), r),
        own_change(*old(ctx), *final(ctx)),
        systems_kept(own_record(*old(ctx)), own_record(*final(ctx))),
        ends_kept(own_record(*old(ctx)), own_record(*final(ctx))),
        own_record(*final(ctx)).effects@ == own_record(*old(ctx)).effects@,
        ({
            let before = own_record(*old(ctx)).inserted@;
            let after = own_record(*final(ctx)).inserted@;
            &&& r is Err ==> after == before
            &&& r is Ok ==> {
                &&& after.len() == before.len() + 1
                &&& after.drop_last() == before
                &&& after.last().type_id == insert.type_id
                &&& after.last().type_label == insert.type_label
                &&& after.last().remove == insert.remove
                &&& after.last().order == before.len()
            }
        }),
{
    if r is Ok {
        assert(own_record(*final(ctx)).inserted@.drop_last() =~= own_record(
            *old(ctx),
        ).inserted@);
    }
}

/// The first container is kept for good, and each further one is refused.
pub proof fn owner_has_one_container<H: HostTypes>(
    ctx: &mut AppCtx<H>,
    container: H::Container,
    first: Result<(), PluginError>,
    later: &mut AppCtx<H>,
    other: H::Container,
    second: Result<(), PluginError>,
)
    requires
        old(ctx).wf(),
        call_ensures(AppCtx::<H>::register_container, (ctx, container), first),
        *old(later) == *final(ctx),
        call_ensures(AppCtx::<H>::register_container, (later, other), second),
    ensures
        own_change(*old(ctx), *final(ctx)),
        systems_kept(own_record(*old(ctx)), own_record(*final(ctx))),
        ledgers_kept(own_record(*old(ctx)), own_record(*final(ctx))),
        own_record(*final(ctx)).route_ids@ == own_record(*old(ctx)).route_ids@,
        own_record(*final(ctx)).topic_ids@ == own_record(*old(ctx)).topic_ids@,
        first is Ok <==> own_record(*old(ctx)).container is None,
        first is Ok ==> own_record(*final(ctx)).container == Some(container),
        first is Err ==> own_record(*final(ctx)).container == own_record(*old(ctx)).container,
        second is Err,
        second->Err_0 is Message,
        second->Err_0->Message_0@ == "a container is already registered"@,
        own_record(*final(later)).container == own_record(*final(ctx)).container,
{
}

/// A restore action is run before those that were registered earlier.
pub proof fn restore_action_comes_last<H: HostTypes>(ctx: &mut AppCtx<H>, action: H::AnyThread)
    requires
        old(ctx).wf(),
        call_ensures(AppCtx::<H>::register_restore_any_thread, (ctx, action), ()),
    ensures
        own_change(*old(ctx), *final(ctx)),
        systems_kept(own_record(*old(ctx)), own_record(*final(ctx))),
        ends_kept(own_record(*old(ctx)), own_record(*final(ctx))),
        own_record(*final(ctx)).inserted@ == own_record(*old(ctx)).inserted@,
        own_record(*final(ctx)).effects@ == own_record(*old(ctx)).effects@ + seq![
            RestoreAction::AnyThread(action),
        ],
{
    assert(own_record(*old(ctx)).effects@.push(RestoreAction::AnyThread(action)) =~= own_record(
        *old(ctx),
    ).effects@ + seq![RestoreAction::AnyThread(action)]);
}

/// Rollback runs every action once, the last one registered first, on the kind
/// of thread that it was registered for.
pub proof fn rollback_runs_backwards<A, M>(
    sink: Vec<RestoreAction<A, M>>,
    new: StartupRegistrar<A, M>,
    any: &mut StartupRegistrar<A, M>,
    free: A,
    main: &mut StartupRegistrar<A, M>,
    bound: M,
    first: &mut StartupRegistrar<A, M>,
    taken: Option<RestoreAction<A, M>>,
    second: &mut StartupRegistrar<A, M>,
    next: Option<RestoreAction<A, M>>,
    rest: Vec<RestoreAction<A, M>>,
)
    requires
        call_ensures(StartupRegistrar::<A, M>::new, (sink,), new),
        *old(any) == new,
        call_ensures(StartupRegistrar::<A, M>::register_restore_any_thread, (any, free), ()),
        *old(main) == *final(any),
        call_ensures(StartupRegistrar::<A, M>::register_restore_main_thread, (main, bound), ()),
        *old(first) == *final(main),
        call_ensures(StartupRegistrar::<A, M>::next_restore, (first,), taken),
        *old(second) == *final(first),
        call_ensures(StartupRegistrar::<A, M>::next_restore, (second,), next),
        call_ensures(StartupRegistrar::<A, M>::into_actions, (*final(second),), rest),
    ensures
        taken == Some(RestoreAction::<A, M>::MainThread(bound)),
        next == Some(RestoreAction::<A, M>::AnyThread(free)),
        rest@ == sink@,
{
    let free_action = RestoreAction::<A, M>::AnyThread(free);
    let bound_action = RestoreAction::<A, M>::MainThread(bound);
    assert(sink@.push(free_action).push(bound_action).drop_last() =~= sink@.push(free_action));
    assert(sink@.push(free_action).drop_last() =~= sink@);
}

/// Nothing is left to roll back exactly when no action is taken.
pub proof fn empty_rollback_has_no_action<A, M>(
    registrar: &mut StartupRegistrar<A, M>,
    taken: Option<RestoreAction<A, M>>,
)
    requires
        call_ensures(StartupRegistrar::<A, M>::next_restore, (registrar,), taken),
    ensures
        taken is None <==> old(registrar)@.len() == 0,
        taken is None ==> final(registrar)@.len() == 0,
{
}

/// An insertion waits behind those before it and is refused later only where
/// its type is there already, by the name of that type.
pub proof fn insertion_waits_and_never_overwrites<'a, A, M, K, I, R>(
    ctx: &mut StartupCtx<'a, A, M, K, I, R>,
    insert: ResourceInsert<K, I, R>,
    queued: Result<(), PluginError>,
    present: bool,
    type_label: &'static str,
    allowed: Result<(), PluginError>,
)
    requires
        call_ensures(StartupCtx::<'a, A, M, K, I, R>::insert_resource, (ctx, insert), queued),
        call_ensures(insertion_allowed, (present, type_label), allowed),
    ensures
        queued is Ok,
        final(ctx).pending@.len() == old(ctx).pending@.len() + 1,
        final(ctx).pending@.last() == insert,
        final(ctx).pending@.drop_last() == old(ctx).pending@,
        final(ctx).reg == old(ctx).reg,
        final(ctx).main == old(ctx).main,
        allowed is Err <==> present,
        allowed matches Err(error) ==> error is ResourceConflict && error->ResourceConflict_0
            == type_label,
{
    assert(final(ctx).pending@.drop_last() =~= old(ctx).pending@);
}

/// A context tells what its host knows, and hands the host back.
pub proof fn context_tells_of_its_host<H: HostTypes>(
    host: PluginHost<H>,
    owner: OwnerId,
    ctx: AppCtx<H>,
    id: OwnerId,
    gate: GateReader,
    config: RuntimeConfig,
    root: DataRoot,
    back: PluginHost<H>,
    own: GateReader,
)
    requires
        host.serves(owner),
        call_ensures(AppCtx::<H>::new, (host, owner), ctx),
        call_ensures(AppCtx::<H>::owner_id, (&ctx,), id),
        call_ensures(AppCtx::<H>::runtime_gate_reader, (&ctx,), gate),
        call_ensures(AppCtx::<H>::config, (&ctx,), config),
        call_ensures(AppCtx::<H>::data_root, (&ctx,), root),
        call_ensures(AppCtx::<H>::into_host, (ctx,), back),
        call_ensures(PluginHost::<H>::owner_gate_reader, (&host, owner), own),
    ensures
        id == owner,
        gate == host.runtime_gate,
        config == host.config,
        root.root() == host.data_root.root(),
        back == host,
        own == host.plugins@[owner.0 as int].gate.handle(),
{
}

/// A message kind is registered by running what registers it; the host has no
/// part in it.
pub proof fn message_kind_is_registered<H: HostTypes, R: FnOnce()>(
    host: &mut PluginHost<H>,
    register: MessageRegister<R>,
    r: Result<(), PluginError>,
)
    requires
        call_ensures(PluginHost::<H>::register_message_dyn::<R>, (host, register), r),
    ensures
        r is Ok,
        register.register.ensures((), ()),
        *final(host) == *old(host),
{
}

// ---------------------------------------------------------------------------
// Routes
// ---------------------------------------------------------------------------

/// A route of the context's owner was appended, with an id of its own that is
/// noted in the owner's record; nothing else was changed.
pub open spec fn route_added<H: HostTypes>(
    before: AppCtx<H>,
    after: AppCtx<H>,
    direction: RouteDirection,
    payload: &'static str,
    mailbox: Seq<char>,
    drain: Option<H::Drain>,
) -> bool {
    let routes = after.host().routes@;
    let route = routes.last();
    &&& after.wf()
    &&& after.owner() == before.owner()
    &&& only_owner_and_routes_changed(before.host(), after.host(), before.owner())
    &&& routes.len() == before.host().routes@.len() + 1
    &&& routes.drop_last() == before.host().routes@
    &&& route.owner == before.owner()
    &&& route.direction == direction
    &&& route.payload == payload
    &&& route.mailbox@ == mailbox
    &&& route.drain == drain
    &&& identity_kept(own_record(before), own_record(after))
    &&& systems_kept(own_record(before), own_record(after))
    &&& ledgers_kept(own_record(before), own_record(after))
    &&& own_record(after).container == own_record(before).container
    &&& own_record(after).topic_ids@ == own_record(before).topic_ids@
    &&& own_record(after).route_ids@ == own_record(before).route_ids@ + seq![route.id]
}

proof fn lemma_route_added<H: HostTypes, R>(
    before: AppCtx<H>,
    after: AppCtx<H>,
    route: crate::routes::RouteRegistration<H::Drain, R>,
)
    requires
        before.wf(),
        after.routed(before, route),
    ensures
        route_added(
            before,
            after,
            route.direction,
            route.payload,
            route.mailbox@,
            route.drain,
        ),
        after.host().routes@.last().id == before.next_route(),
{
    let own = own_record(before).route_ids@;
    assert(after.host().routes@.drop_last() =~= before.host().routes@);
    assert(own.push(before.next_route()) =~= own + seq![before.next_route()]);
}

/// A route toward the callbacks with `latest` semantics starts empty, and its
/// ends are the ends of that route.
pub proof fn outward_latest_route<H: HostTypes, T: CallbackPayload>(
    ctx: &mut AppCtx<H>,
    payload: &'static str,
    r: (MainLatestWriter<T>, CallbackLatestReader<T>, LatestCell<T>),
)
    requires
        old(ctx).wf(),
        old(ctx).host().routes@.len() < u64::MAX,
        call_ensures(AppCtx::<H>::main_to_callback_latest::<T>, (ctx, payload), r),
    ensures
        route_added(
            *old(ctx),
            *final(ctx),
            RouteDirection::MainToCallback,
            payload,
            "latest"@,
            None,
        ),
        r.0.route() == final(ctx).host().routes@.last().id,
        r.1.route() == final(ctx).host().routes@.last().id,
        r.2@ is None,
{
    lemma_route_added(*old(ctx), *final(ctx), crate::host::outward(payload, "latest"));
}

/// A route toward the callbacks with `bounded` semantics starts empty.
pub proof fn outward_bounded_route<H: HostTypes, T: CallbackPayload, const N: usize>(
    ctx: &mut AppCtx<H>,
    payload: &'static str,
    r: (MainBoundedWriter<T, N>, CallbackBoundedReader<T, N>, BoundedQueue<T, N>),
)
    requires
        old(ctx).wf(),
        old(ctx).host().routes@.len() < u64::MAX,
        0 < N < usize::MAX / 2,
        call_ensures(AppCtx::<H>::main_to_callback_bounded::<T, N>, (ctx, payload), r),
    ensures
        route_added(
            *old(ctx),
            *final(ctx),
            RouteDirection::MainToCallback,
            payload,
            "bounded"@,
            None,
        ),
        r.0.route() == final(ctx).host().routes@.last().id,
        r.1.route() == final(ctx).host().routes@.last().id,
        r.2@.len() == 0,
{
    lemma_route_added(*old(ctx), *final(ctx), crate::host::outward(payload, "bounded"));
}

/// A route toward the callbacks with `shared_latest` semantics starts empty.
pub proof fn outward_shared_route<H: HostTypes, T>(
    ctx: &mut AppCtx<H>,
    payload: &'static str,
    r: (MainSharedWriter<T>, CallbackSharedReader<T>, SharedSlot<T>),
)
    requires
        old(ctx).wf(),
        old(ctx).host().routes@.len() < u64::MAX,
        call_ensures(AppCtx::<H>::main_to_callback_shared::<T>, (ctx, payload), r),
    ensures
        route_added(
            *old(ctx),
            *final(ctx),
            RouteDirection::MainToCallback,
            payload,
            "shared_latest"@,
            None,
        ),
        r.0.route() == final(ctx).host().routes@.last().id,
        r.1.route() == final(ctx).host().routes@.last().id,
        r.2@ is None,
{
    lemma_route_added(*old(ctx), *final(ctx), crate::host::outward(payload, "shared_latest"));
}

/// A route toward the main side with `latest` semantics starts empty, is
/// drained through `drain`, and its receiver is there.
pub proof fn inward_latest_route<H: HostTypes, T: CallbackPayload, R: FnOnce()>(
    ctx: &mut AppCtx<H>,
    payload: &'static str,
    drain: H::Drain,
    receiver: MessageRegister<R>,
    r: (CallbackLatestWriter<T>, MainLatestReader<T>, LatestCell<T>),
)
    requires
        old(ctx).wf(),
        old(ctx).host().routes@.len() < u64::MAX,
        call_ensures(
            AppCtx::<H>::callback_to_main_latest::<T, R>,
            (ctx, payload, drain, receiver),
            r,
        ),
    ensures
        route_added(
            *old(ctx),
            *final(ctx),
            RouteDirection::CallbackToMain,
            payload,
            "latest"@,
            Some(drain),
        ),
        receiver.register.ensures((), ()),
        r.0.route() == final(ctx).host().routes@.last().id,
        r.1.route() == final(ctx).host().routes@.last().id,
        r.2@ is None,
{
    lemma_route_added(
        *old(ctx),
        *final(ctx),
        crate::host::inward(payload, "latest", drain, receiver),
    );
}

/// A route toward the main side with `bounded` semantics starts empty.
pub proof fn inward_bounded_route<H: HostTypes, T: CallbackPayload, R: FnOnce(), const N: usize>(
    ctx: &mut AppCtx<H>,
    payload: &'static str,
    drain: H::Drain,
    receiver: MessageRegister<R>,
    r: (CallbackBoundedWriter<T, N>, MainBoundedReader<T, N>, BoundedQueue<T, N>),
)
    requires
        old(ctx).wf(),
        old(ctx).host().routes@.len() < u64::MAX,
        0 < N < usize::MAX / 2,
        call_ensures(
            AppCtx::<H>::callback_to_main_bounded::<T, R, N>,
            (ctx, payload, drain, receiver),
            r,
        ),
    ensures
        route_added(
            *old(ctx),
            *final(ctx),
            RouteDirection::CallbackToMain,
            payload,
            "bounded"@,
            Some(drain),
        ),
        receiver.register.ensures((), ()),
        r.0.route() == final(ctx).host().routes@.last().id,
        r.1.route() == final(ctx).host().routes@.last().id,
        r.2@.len() == 0,
{
    lemma_route_added(
        *old(ctx),
        *final(ctx),
        crate::host::inward(payload, "bounded", drain, receiver),
    );
}

/// A route toward the main side with `shared_latest` semantics starts empty.
pub proof fn inward_shared_route<H: HostTypes, T, R: FnOnce()>(
    ctx: &mut AppCtx<H>,
    payload: &'static str,
    drain: H::Drain,
    receiver: MessageRegister<R>,
    r: (CallbackSharedWriter<T>, MainSharedReader<T>, SharedSlot<T>),
)
    requires
        old(ctx).wf(),
        old(ctx).host().routes@.len() < u64::MAX,
        call_ensures(
            AppCtx::<H>::callback_to_main_shared::<T, R>,
            (ctx, payload, drain, receiver),
            r,
        ),
    ensures
        route_added(
            *old(ctx),
            *final(ctx),
            RouteDirection::CallbackToMain,
            payload,
            "shared_latest"@,
            Some(drain),
        ),
        receiver.register.ensures((), ()),
        r.0.route() == final(ctx).host().routes@.last().id,
        r.1.route() == final(ctx).host().routes@.last().id,
        r.2@ is None,
{
    lemma_route_added(
        *old(ctx),
        *final(ctx),
        crate::host::inward(payload, "shared_latest", drain, receiver),
    );
}

// ---------------------------------------------------------------------------
// Hooks
// ---------------------------------------------------------------------------

/// A hook is behind the runtime gate and its owner gate.
pub proof fn hook_is_behind_both_gates<H: HostTypes, C>(
    ctx: &AppCtx<H>,
    r: HookBuilder<C, Unpublished>,
)
    requires
        ctx.wf(),
        call_ensures(AppCtx::<H>::hook::<C>, (ctx,), r),
    ensures
        r.attached() is None,
        r.gates().0 == ctx.host().runtime_gate,
        r.gates().1 == own_record(*ctx).gate.handle(),
{
}

/// The restore action of `hook`, and nothing else, was added to the owner.
pub open spec fn restore_added<
    H: HostTypes,
    V: MethodResolver,
    W: FnOnce(InstalledHook<V::Memory>) -> H::AnyThread,
>(
    before: AppCtx<H>,
    after: AppCtx<H>,
    wrap: W,
    hook: InstalledHook<V::Memory>,
    action: H::AnyThread,
) -> bool {
    &&& wrap.ensures((hook,), action)
    &&& own_change(before, after)
    &&& systems_kept(own_record(before), own_record(after))
    &&& ends_kept(own_record(before), own_record(after))
    &&& own_record(after).inserted@ == own_record(before).inserted@
    &&& own_record(after).effects@ == own_record(before).effects@ + seq![
        RestoreAction::AnyThread(action),
    ]
}

/// A site was hooked, and can be restored: its published replacement stands
/// where the original was. Or it was not, and the owner has nothing to restore.
pub open spec fn hooked_for<
    H: HostTypes,
    C,
    V: MethodResolver,
    W: FnOnce(InstalledHook<V::Memory>) -> H::AnyThread,
>(
    before: AppCtx<H>,
    after: AppCtx<H>,
    site: Option<SiteInner<C>>,
    site_after: Option<SiteInner<C>>,
    wrap: W,
    r: Result<(), PluginError>,
) -> bool {
    &&& after.wf() && after.owner() == before.owner()
    &&& r is Err ==> after.host() == before.host() && (site_after is Some <==> site is Some) && (site is Some
        ==> site_after->Some_0.installed == site->Some_0.installed)
    &&& r is Ok ==> {
        &&& site is Some && site_after is Some
        &&& site_after->Some_0.installed
        &&& site_after->Some_0.original_addr != 0
        &&& exists|hook: InstalledHook<V::Memory>, action: H::AnyThread|
            {
                &&& #[trigger] restore_added::<H, V, W>(before, after, wrap, hook, action)
                &&& hook.original() == site_after->Some_0.original_addr
                &&& hook.replaced_by() == site->Some_0.replacement
            }
    }
    &&& site is Some ==> {
        &&& site_after->Some_0.container == site->Some_0.container
        &&& site_after->Some_0.runtime_gate == site->Some_0.runtime_gate
        &&& site_after->Some_0.plugin_gate == site->Some_0.plugin_gate
        &&& site_after->Some_0.replacement == site->Some_0.replacement
    }
}

/// What an installation through a context leaves.
pub proof fn lemma_hooked<
    H: HostTypes,
    C,
    T: HookTarget,
    V: MethodResolver,
    W: FnOnce(InstalledHook<V::Memory>) -> H::AnyThread,
>(
    before: AppCtx<H>,
    after: AppCtx<H>,
    site: Option<SiteInner<C>>,
    site_after: Option<SiteInner<C>>,
    resolver: Option<V>,
    asked: Option<V>,
    wrap: W,
    r: Result<(), PluginError>,
)
    requires
        before.wf(),
        after.hook_installed::<C, T, V, W>(before, site, site_after, resolver, asked, wrap, r),
    ensures
        hooked_for::<H, C, V, W>(before, after, site, site_after, wrap, r),
        site is None || resolver is None ==> r is Err && asked == resolver,
{
    let installed = choose|installed: Result<InstalledHook<V::Memory>, PluginError>|
        {
            &&& #[trigger] crate::hook::installation::<T, V, C>(
                resolver,
                asked,
                site,
                site_after,
                installed,
            )
            &&& after.hook_noted::<V, W>(before, installed, wrap, r)
        };
    if let Ok(hook) = installed {
        crate::hook_laws::lemma_installed::<T, V, C>(resolver, asked, site, site_after, installed);
        let action = choose|action: H::AnyThread|
            {
                &&& #[trigger] wrap.ensures((hook,), action)
                &&& own_record(after).effects@ == own_record(before).effects@.push(
                    RestoreAction::AnyThread(action),
                )
            };
        let effects = own_record(before).effects@;
        assert(effects.push(RestoreAction::AnyThread(action)) =~= effects + seq![
            RestoreAction::AnyThread(action),
        ]);
        assert(restore_added::<H, V, W>(before, after, wrap, hook, action));
    }
}

/// A hook that is installed through a context can be restored by its owner, and
/// one that is not leaves nothing to restore. The resolver is asked for the
/// target of the hook's type.
pub proof fn installed_hook_can_be_restored<
    H: HostTypes,
    C,
    T: HookTarget,
    V: MethodResolver,
    W: FnOnce(InstalledHook<V::Memory>) -> H::AnyThread,
>(
    ctx: &mut AppCtx<H>,
    builder: HookBuilder<C, Published>,
    site: &mut HookSite<C>,
    resolver: &mut Option<V>,
    wrap: W,
    r: Result<(), PluginError>,
)
    requires
        old(ctx).wf(),
        call_ensures(
            AppCtx::<H>::install_hook::<C, T, V, W>,
            (ctx, builder, site, resolver, wrap),
            r,
        ),
    ensures
        hooked_for::<H, C, V, W>(*old(ctx), *final(ctx), old(site)@, final(site)@, wrap, r),
        old(site)@ is None || *old(resolver) is None ==> r is Err && *final(resolver)
            == *old(resolver),
        r is Ok ==> exists|
            target: TargetId,
            reply: Result<MethodRef, HookError>,
            installed: Result<InstalledHook<V::Memory>, PluginError>,
        | #[trigger]
            crate::hook_laws::asked_for_its_target::<T, V, C>(
                (*old(resolver))->Some_0,
                (*final(resolver))->Some_0,
                old(site)@->Some_0,
                final(site)@,
                target,
                reply,
                installed,
            ) && installed is Ok,
{
    lemma_hooked::<H, C, T, V, W>(
        *old(ctx),
        *final(ctx),
        old(site)@,
        final(site)@,
        *old(resolver),
        *final(resolver),
        wrap,
        r,
    );
    if r is Ok {
        let installed = choose|installed: Result<InstalledHook<V::Memory>, PluginError>|
            {
                &&& #[trigger] crate::hook::installation::<T, V, C>(
                    *old(resolver),
                    *final(resolver),
                    old(site)@,
                    final(site)@,
                    installed,
                )
                &&& final(ctx).hook_noted::<V, W>(*old(ctx), installed, wrap, r)
            };
        crate::hook_laws::lemma_asked::<T, V, C>(
            *old(resolver),
            *final(resolver),
            old(site)@,
            final(site)@,
            installed,
        );
    }
}

// ---------------------------------------------------------------------------
// Topics
// ---------------------------------------------------------------------------

/// The registry was offered `registration` and answered `registered`: a topic
/// with nothing in its channel, behind the gates of its owner.
pub open spec fn topic_offered<
    H: HostTypes,
    P,
    D,
    G: FnOnce(DebugTopicRegistration<P, D>) -> Result<TopicId, PluginError>,
>(
    before: AppCtx<H>,
    name: Seq<char>,
    decode: D,
    callback_domain: bool,
    register: G,
    registration: DebugTopicRegistration<P, D>,
    registered: Result<TopicId, PluginError>,
) -> bool {
    &&& register.ensures((registration,), registered)
    &&& registration.name@ == name
    &&& registration.decode == decode
    &&& registration.callback_domain == callback_domain
    &&& registration.channel@.inbox.len() == 0
    &&& registration.channel@.outbox.len() == 0
    &&& registration.channel@.pending == 0
    &&& registration.channel.owner_gate == own_record(before).gate.handle()
    &&& registration.channel.runtime_gate == before.host().runtime_gate
}

/// A topic was offered once. Where the registry took it, its id and its system
/// are the newest of the owner; where it refused, that is the answer, and the
/// owner has nothing new.
pub open spec fn topic_added<
    H: HostTypes,
    P,
    D,
    G: FnOnce(DebugTopicRegistration<P, D>) -> Result<TopicId, PluginError>,
>(
    before: AppCtx<H>,
    after: AppCtx<H>,
    name: Seq<char>,
    decode: D,
    callback_domain: bool,
    register: G,
    system: H::Update,
    r: Result<(), PluginError>,
) -> bool {
    &&& own_change(before, after)
    &&& own_record(after).startup@ == own_record(before).startup@
    &&& ledgers_kept(own_record(before), own_record(after))
    &&& own_record(after).container == own_record(before).container
    &&& own_record(after).route_ids@ == own_record(before).route_ids@
    &&& exists|registration: DebugTopicRegistration<P, D>, registered: Result<TopicId, PluginError>|
        {
            &&& #[trigger] topic_offered::<H, P, D, G>(
                before,
                name,
                decode,
                callback_domain,
                register,
                registration,
                registered,
            )
            &&& registered matches Ok(topic) ==> {
                &&& r is Ok
                &&& own_record(after).topic_ids@ == own_record(before).topic_ids@ + seq![topic]
                &&& own_record(after).update@ == own_record(before).update@ + seq![system]
            }
            &&& registered matches Err(error) ==> {
                &&& r is Err && r->Err_0 == error
                &&& own_record(after).topic_ids@ == own_record(before).topic_ids@
                &&& own_record(after).update@ == own_record(before).update@
            }
        }
}

/// What registering a topic leaves.
pub proof fn lemma_topic_added<
    H: HostTypes,
    P,
    D,
    G: FnOnce(DebugTopicRegistration<P, D>) -> Result<TopicId, PluginError>,
>(
    before: AppCtx<H>,
    after: AppCtx<H>,
    name: &'static str,
    decode: D,
    callback_domain: bool,
    register: G,
    system: H::Update,
    r: Result<(), PluginError>,
)
    requires
        before.wf(),
        after.topic_registered::<P, D, G>(
            before,
            name,
            decode,
            callback_domain,
            register,
            system,
            r,
        ),
    ensures
        topic_added::<H, P, D, G>(
            before,
            after,
            name@,
            decode,
            callback_domain,
            register,
            system,
            r,
        ),
{
    let (registration, registered) = choose|
        registration: DebugTopicRegistration<P, D>,
        registered: Result<TopicId, PluginError>,
    |
        {
            &&& crate::host::fresh_topic(
                registration,
                name,
                decode,
                callback_domain,
                before.host().of(before.owner()).gate.handle(),
                before.host().runtime_gate,
            )
            &&& #[trigger] register.ensures((registration,), registered)
            &&& after.topic_noted(before, system, registered, r)
        };
    if let Ok(topic) = registered {
        let topics = own_record(before).topic_ids@;
        let systems = own_record(before).update@;
        assert(topics.push(topic) =~= topics + seq![topic]);
        assert(systems.push(system) =~= systems + seq![system]);
    }
    assert(topic_offered::<H, P, D, G>(
        before,
        name@,
        decode,
        callback_domain,
        register,
        registration,
        registered,
    ));
}

/// A topic of the main domain is offered as such, under its name.
pub proof fn main_topic_is_offered<
    H: HostTypes,
    P,
    D,
    G: FnOnce(DebugTopicRegistration<P, D>) -> Result<TopicId, PluginError>,
>(
    ctx: &mut AppCtx<H>,
    name: &'static str,
    decode: D,
    register: G,
    system: H::Update,
    r: Result<(), PluginError>,
)
    requires
        old(ctx).wf(),
        call_ensures(
            AppCtx::<H>::register_main_debug::<P, D, G>,
            (ctx, name, decode, register, system),
            r,
        ),
    ensures
        topic_added::<H, P, D, G>(
            *old(ctx),
            *final(ctx),
            name@,
            decode,
            false,
            register,
            system,
            r,
        ),
{
    lemma_topic_added::<H, P, D, G>(
        *old(ctx),
        *final(ctx),
        name,
        decode,
        false,
        register,
        system,
        r,
    );
}

/// A topic of the callback domain is offered as such, and its slots are empty.
pub proof fn callback_topic_is_offered<
    H: HostTypes,
    P,
    D,
    Req,
    Res,
    G: FnOnce(DebugTopicRegistration<P, D>) -> Result<TopicId, PluginError>,
>(
    ctx: &mut AppCtx<H>,
    name: &'static str,
    decode: D,
    register: G,
    system: H::Update,
    r: Result<CallbackDebugEndpoints<Req, Res>, PluginError>,
    outcome: Result<(), PluginError>,
)
    requires
        old(ctx).wf(),
        call_ensures(
            AppCtx::<H>::register_callback_debug::<P, D, Req, Res, G>,
            (ctx, name, decode, register, system),
            r,
        ),
        outcome is Ok <==> r is Ok,
        r matches Err(error) ==> outcome == Err::<(), PluginError>(error),
    ensures
        topic_added::<H, P, D, G>(
            *old(ctx),
            *final(ctx),
            name@,
            decode,
            true,
            register,
            system,
            outcome,
        ),
        r matches Ok(ends) ==> ends.request@ is None && ends.response@ is None,
{
    lemma_topic_added::<H, P, D, G>(
        *old(ctx),
        *final(ctx),
        name,
        decode,
        true,
        register,
        system,
        outcome,
    );
}

} // verus!
