//! The owner-scoped host: what registering through a plugin's context does to
//! the runtime's records.

use vstd::prelude::*;

use crate::backend::MethodResolver;
use crate::base::{DataRoot, OwnerId, RouteId, TopicId};
use crate::config::RuntimeConfig;
use crate::debug_dispatch::DebugTopicRegistration;
use crate::debug_relay::CallbackDebugEndpoints;
use crate::debug_topic::{ChannelView, DebugTopicChannel};
use crate::container::{BoundedQueue, CallbackPayload, LatestCell, SharedSlot};
use crate::error::PluginError;
use crate::gate::GateReader;
use crate::hook::{HookBuilder, HookSite, HookTarget, InstalledHook, Published, SiteInner, Unpublished};
use crate::manager::{HostTypes, PluginManager, PluginRecord, ResourceLedgerEntry};
use crate::phase::{ResourceInsert, RestoreAction};
use crate::route::{
    CallbackBoundedReader, CallbackBoundedWriter, CallbackLatestReader, CallbackLatestWriter,
    CallbackSharedReader, CallbackSharedWriter, MainBoundedReader, MainBoundedWriter,
    MainLatestReader, MainLatestWriter, MainSharedReader, MainSharedWriter,
};
use crate::routes::{MessageRegister, RouteDirection, RouteEntry, RouteRegistration, RouteTable};

verus! {

/// The runtime state that plugins register with.
pub struct PluginHost<H: HostTypes> {
    pub plugins: PluginManager<H>,
    pub routes: RouteTable<H::Drain>,
    pub runtime_gate: GateReader,
    pub config: RuntimeConfig,
    pub data_root: DataRoot,
}

/// `after` is `before` with the record of `owner` changed to `record`, and
/// nothing else changed.
pub open spec fn record_changed<H: HostTypes>(
    before: PluginHost<H>,
    after: PluginHost<H>,
    owner: OwnerId,
    record: PluginRecord<H>,
) -> bool {
    &&& after.wf()
    &&& after.plugins@ == before.plugins@.update(owner.0 as int, record)
    &&& after.routes == before.routes
    &&& after.runtime_gate == before.runtime_gate
    &&& after.config == before.config
    &&& after.data_root == before.data_root
}

impl<H: HostTypes> PluginHost<H> {
    pub open spec fn wf(&self) -> bool {
        self.plugins.wf() && self.routes.wf()
    }

    /// The host is well formed and knows `owner`.
    pub open spec fn serves(&self, owner: OwnerId) -> bool {
        self.wf() && self.plugins.knows(owner)
    }

    /// The record of `owner`.
    pub open spec fn of(&self, owner: OwnerId) -> PluginRecord<H> {
        self.plugins@[owner.0 as int]
    }

    /// Read-only side of the owner's gate.
    pub fn owner_gate_reader(&self, owner: OwnerId) -> (r: GateReader)
        requires
            self.serves(owner),
        ensures
            r == self.of(owner).gate.handle(),
    {
        self.plugins.record(owner).gate.reader()
    }

    /// Runs the conflict-checked insert and records it in the owner ledger.
    /// When the insert fails, nothing is recorded.
    pub fn insert_resource_dyn<I: FnOnce() -> Result<(), PluginError>>(
        &mut self,
        owner: OwnerId,
        insert: ResourceInsert<H::TypeKey, I, H::Remove>,
    ) -> (r: Result<(), PluginError>)
        requires
            old(self).serves(owner),
            old(self).of(owner).inserted.len() < u64::MAX,
            insert.insert.requires(()),
        ensures
            insert.insert.ensures((), r),
            ({
                let before = old(self).of(owner);
                let after = final(self).of(owner);
                &&& record_changed(*old(self), *final(self), owner, after)
                &&& after == (PluginRecord { inserted: after.inserted, ..before })
                &&& after.inserted@ == if r is Ok {
                    before.inserted@.push(
                        ResourceLedgerEntry {
                            type_id: insert.type_id,
                            type_label: insert.type_label,
                            order: before.inserted@.len() as u64,
                            remove: insert.remove,
                        },
                    )
                } else {
                    before.inserted@
                }
            }),
    {
        let ghost records = self.plugins@;
        let record = self.plugins.record(owner);
        let order: u64 = match record.inserted.last() {
            Some(entry) => entry.order + 1,
            None => 0,
        };
        assert(order == self.of(owner).inserted@.len());
        let run = insert.insert;
        let result = run();
        if result.is_ok() {
            let record = self.plugins.record_mut(owner);
            record.inserted.push(
                ResourceLedgerEntry {
                    type_id: insert.type_id,
                    type_label: insert.type_label,
                    order,
                    remove: insert.remove,
                },
            );
        } else {
            assert(records =~= records.update(owner.0 as int, self.of(owner)));
        }
        result
    }

    /// Registers a startup system of `owner`.
    pub fn add_startup_system_dyn(&mut self, owner: OwnerId, system: H::Startup)
        requires
            old(self).serves(owner),
        ensures
            ({
                let before = old(self).of(owner);
                let after = final(self).of(owner);
                &&& record_changed(*old(self), *final(self), owner, after)
                &&& after == (PluginRecord { startup: after.startup, ..before })
                &&& after.startup@ == before.startup@.push(system)
            }),
    {
        self.plugins.record_mut(owner).startup.push(system);
    }

    /// Registers an update system of `owner`.
    pub fn add_update_system_dyn(&mut self, owner: OwnerId, system: H::Update)
        requires
            old(self).serves(owner),
        ensures
            ({
                let before = old(self).of(owner);
                let after = final(self).of(owner);
                &&& record_changed(*old(self), *final(self), owner, after)
                &&& after == (PluginRecord { update: after.update, ..before })
                &&& after.update@ == before.update@.push(system)
            }),
    {
        self.plugins.record_mut(owner).update.push(system);
    }

    /// Registers the callback container of `owner`; a second one is refused.
    pub fn register_container_dyn(&mut self, owner: OwnerId, container: H::Container) -> (r: Result<
        (),
        PluginError,
    >)
        requires
            old(self).serves(owner),
        ensures
            ({
                let before = old(self).of(owner);
                if before.container is Some {
                    &&& r is Err && r->Err_0 == PluginError::Message(
                        "a container is already registered",
                    )
                    &&& record_changed(*old(self), *final(self), owner, before)
                } else {
                    &&& r is Ok
                    &&& record_changed(
                        *old(self),
                        *final(self),
                        owner,
                        (PluginRecord { container: Some(container), ..before }),
                    )
                }
            }),
    {
        let ghost records = self.plugins@;
        if self.plugins.record(owner).container.is_some() {
            assert(records =~= records.update(owner.0 as int, self.of(owner)));
            return Err(PluginError::Message("a container is already registered"));
        }
        self.plugins.record_mut(owner).container = Some(container);
        Ok(())
    }

    /// Makes sure that the main side can receive a kind of message.
    pub fn register_message_dyn<R: FnOnce()>(&mut self, register: MessageRegister<R>) -> (r: Result<
        (),
        PluginError,
    >)
        requires
            register.register.requires(()),
        ensures
            r is Ok,
            register.register.ensures((), ()),
            *final(self) == *old(self),
    {
        let run = register.register;
        run();
        Ok(())
    }

    /// Appends a route of `owner` to the table and notes its id. What the route
    /// delivers into is registered before it.
    pub fn register_route_dyn<R: FnOnce()>(
        &mut self,
        owner: OwnerId,
        route: RouteRegistration<H::Drain, R>,
    ) -> (r: RouteId)
        requires
            old(self).serves(owner),
            old(self).routes@.len() < u64::MAX,
            route.ensure_receiver matches Some(receiver) ==> receiver.register.requires(()),
        ensures
            route_registered(*old(self), *final(self), owner, route, r),
            route.ensure_receiver matches Some(receiver) ==> receiver.register.ensures((), ()),
    {
        let RouteRegistration { direction, payload, mailbox, drain, ensure_receiver } = route;
        if let Some(receiver) = ensure_receiver {
            let run = receiver.register;
            run();
        }
        let route: RouteRegistration<H::Drain, R> = RouteRegistration {
            direction,
            payload,
            mailbox,
            drain,
            ensure_receiver: None,
        };
        let id = self.routes.push(owner, route);
        self.plugins.record_mut(owner).route_ids.push(id);
        id
    }

    /// Registers a restore action of `owner` that may run from any thread.
    pub fn register_restore_any_thread(&mut self, owner: OwnerId, action: H::AnyThread)
        requires
            old(self).serves(owner),
        ensures
            ({
                let before = old(self).of(owner);
                let after = final(self).of(owner);
                &&& record_changed(*old(self), *final(self), owner, after)
                &&& after == (PluginRecord { effects: after.effects, ..before })
                &&& after.effects@ == before.effects@.push(RestoreAction::AnyThread(action))
            }),
    {
        self.plugins.record_mut(owner).effects.push(RestoreAction::AnyThread(action));
    }

    /// Notes the debug topic that the registry gave `owner`. A registration
    /// that the registry refuses is passed on.
    pub fn register_debug_topic_dyn(
        &mut self,
        owner: OwnerId,
        registered: Result<TopicId, PluginError>,
    ) -> (r: Result<(), PluginError>)
        requires
            old(self).serves(owner),
        ensures
            ({
                let before = old(self).of(owner);
                let after = final(self).of(owner);
                &&& record_changed(*old(self), *final(self), owner, after)
                &&& after == (PluginRecord { topic_ids: after.topic_ids, ..before })
                &&& match registered {
                    Ok(topic) => r is Ok && after.topic_ids@ == before.topic_ids@.push(topic),
                    Err(error) => r is Err && r->Err_0 == error && after.topic_ids@
                        == before.topic_ids@,
                }
            }),
    {
        let ghost records = self.plugins@;
        match registered {
            Ok(topic) => {
                self.plugins.record_mut(owner).topic_ids.push(topic);
                Ok(())
            },
            Err(error) => {
                assert(records =~= records.update(owner.0 as int, self.of(owner)));
                Err(error)
            },
        }
    }
}

/// `after` is `before` with `route` of `owner` appended under the id `id`.
pub open spec fn route_registered<H: HostTypes, R>(
    before: PluginHost<H>,
    after: PluginHost<H>,
    owner: OwnerId,
    route: RouteRegistration<H::Drain, R>,
    id: RouteId,
) -> bool {
    let old_record = before.of(owner);
    let new_record = after.of(owner);
    &&& after.wf()
    &&& id == RouteId(before.routes@.len() as u64)
    &&& after.routes@ == before.routes@.push(
        RouteEntry {
            id,
            owner,
            direction: route.direction,
            payload: route.payload,
            mailbox: route.mailbox,
            drain: route.drain,
        },
    )
    &&& after.plugins@ == before.plugins@.update(owner.0 as int, new_record)
    &&& new_record == (PluginRecord { route_ids: new_record.route_ids, ..old_record })
    &&& new_record.route_ids@ == old_record.route_ids@.push(id)
    &&& after.runtime_gate == before.runtime_gate
    &&& after.config == before.config
    &&& after.data_root == before.data_root
}

/// Restricted facade for one plugin's build and startup operations. Every
/// operation carries the current owner implicitly; plugin code cannot reach
/// another owner's records.
pub struct AppCtx<H: HostTypes> {
    host: PluginHost<H>,
    owner: OwnerId,
}

/// A route registration without a drain: main to callback.
pub open spec fn outward<D>(payload: &'static str, mailbox: &'static str) -> RouteRegistration<
    D,
    (),
> {
    RouteRegistration {
        direction: RouteDirection::MainToCallback,
        payload,
        mailbox,
        drain: None,
        ensure_receiver: None,
    }
}

fn no_receiver<R: FnOnce()>(_like: R) -> (r: Option<MessageRegister<R>>)
    ensures
        r is None,
{
    None
}

/// A route registration with a drain: callback to main.
pub open spec fn inward<D, R>(
    payload: &'static str,
    mailbox: &'static str,
    drain: D,
    receiver: MessageRegister<R>,
) -> RouteRegistration<D, R> {
    RouteRegistration {
        direction: RouteDirection::CallbackToMain,
        payload,
        mailbox,
        drain: Some(drain),
        ensure_receiver: Some(receiver),
    }
}

impl<H: HostTypes> AppCtx<H> {
    /// The host behind this context.
    pub closed spec fn host(&self) -> PluginHost<H> {
        self.host
    }

    /// The owner of this context.
    pub closed spec fn owner(&self) -> OwnerId {
        self.owner
    }

    /// The host serves the owner.
    pub open spec fn wf(&self) -> bool {
        self.host().serves(self.owner())
    }

    /// The context of `owner` over `host`.
    pub fn new(host: PluginHost<H>, owner: OwnerId) -> (r: Self)
        ensures
            r.host() == host,
            r.owner() == owner,
    {
        AppCtx { host, owner }
    }

    /// Hands the host back.
    pub fn into_host(self) -> (r: PluginHost<H>)
        ensures
            r == self.host(),
    {
        self.host
    }

    /// Owner id of the plugin this context belongs to.
    #[must_use]
    pub fn owner_id(&self) -> (r: OwnerId)
        ensures
            r == self.owner(),
    {
        self.owner
    }

    /// Reader side of the process runtime gate.
    #[must_use]
    pub fn runtime_gate_reader(&self) -> (r: GateReader)
        ensures
            r == self.host().runtime_gate,
    {
        self.host.runtime_gate
    }

    /// Typed configuration snapshot.
    #[must_use]
    pub fn config(&self) -> (r: RuntimeConfig)
        ensures
            r == self.host().config,
    {
        self.host.config
    }

    /// The game sandbox Documents root.
    #[must_use]
    pub fn data_root(&self) -> (r: DataRoot)
        ensures
            r.root() == self.host().data_root.root(),
    {
        DataRoot::new(self.host.data_root.path().clone())
    }

    /// A resource was inserted, as `insert` answered; only a success is in the
    /// ledger of the owner.
    pub open spec fn resource_inserted<I: FnOnce() -> Result<(), PluginError>>(
        &self,
        earlier: Self,
        insert: ResourceInsert<H::TypeKey, I, H::Remove>,
        r: Result<(), PluginError>,
    ) -> bool {
        let owner = earlier.owner();
        let before = earlier.host().of(owner);
        let after = self.host().of(owner);
        &&& self.wf()
        &&& self.owner() == owner
        &&& insert.insert.ensures((), r)
        &&& record_changed(earlier.host(), self.host(), owner, after)
        &&& after == (PluginRecord { inserted: after.inserted, ..before })
        &&& after.inserted@ == if r is Ok {
            before.inserted@.push(
                ResourceLedgerEntry {
                    type_id: insert.type_id,
                    type_label: insert.type_label,
                    order: before.inserted@.len() as u64,
                    remove: insert.remove,
                },
            )
        } else {
            before.inserted@
        }
    }

    /// The single container of the owner was registered, or refused because
    /// there is one already.
    pub open spec fn container_registered(
        &self,
        earlier: Self,
        container: H::Container,
        r: Result<(), PluginError>,
    ) -> bool {
        let owner = earlier.owner();
        let before = earlier.host().of(owner);
        &&& self.wf()
        &&& self.owner() == owner
        &&& if before.container is Some {
            &&& r is Err && r->Err_0 == PluginError::Message("a container is already registered")
            &&& record_changed(earlier.host(), self.host(), owner, before)
        } else {
            &&& r is Ok
            &&& record_changed(
                earlier.host(),
                self.host(),
                owner,
                (PluginRecord { container: Some(container), ..before }),
            )
        }
    }

    /// Inserts a resource and records it in the owner ledger. A conflicting
    /// insert fails and is not recorded.
    pub fn insert_resource<I: FnOnce() -> Result<(), PluginError>>(
        &mut self,
        insert: ResourceInsert<H::TypeKey, I, H::Remove>,
    ) -> (r: Result<(), PluginError>)
        requires
            old(self).wf(),
            old(self).host().of(old(self).owner()).inserted.len() < u64::MAX,
            insert.insert.requires(()),
        ensures
            final(self).resource_inserted(*old(self), insert, r),
    {
        self.host.insert_resource_dyn(self.owner, insert)
    }

    /// Registers a Startup system (runs once, first outer LateUpdate).
    pub fn add_startup_system(&mut self, system: H::Startup)
        requires
            old(self).wf(),
        ensures
            final(self).wf(),
            final(self).owner() == old(self).owner(),
            ({
                let owner = old(self).owner();
                let before = old(self).host().of(owner);
                let after = final(self).host().of(owner);
                &&& record_changed(old(self).host(), final(self).host(), owner, after)
                &&& after == (PluginRecord { startup: after.startup, ..before })
                &&& after.startup@ == before.startup@.push(system)
            }),
    {
        self.host.add_startup_system_dyn(self.owner, system);
    }

    /// Registers an Update system (runs every outer LateUpdate).
    pub fn add_update_system(&mut self, system: H::Update)
        requires
            old(self).wf(),
        ensures
            final(self).wf(),
            final(self).owner() == old(self).owner(),
            ({
                let owner = old(self).owner();
                let before = old(self).host().of(owner);
                let after = final(self).host().of(owner);
                &&& record_changed(old(self).host(), final(self).host(), owner, after)
                &&& after == (PluginRecord { update: after.update, ..before })
                &&& after.update@ == before.update@.push(system)
            }),
    {
        self.host.add_update_system_dyn(self.owner, system);
    }

    /// Registers the plugin's single callback container; a second registration
    /// fails.
    pub fn register_container(&mut self, container: H::Container) -> (r: Result<(), PluginError>)
        requires
            old(self).wf(),
        ensures
            final(self).container_registered(*old(self), container, r),
    {
        self.host.register_container_dyn(self.owner, container)
    }

    /// Registers a restore action that may run from any thread.
    pub fn register_restore_any_thread(&mut self, action: H::AnyThread)
        requires
            old(self).wf(),
        ensures
            final(self).wf(),
            final(self).owner() == old(self).owner(),
            ({
                let owner = old(self).owner();
                let before = old(self).host().of(owner);
                let after = final(self).host().of(owner);
                &&& record_changed(old(self).host(), final(self).host(), owner, after)
                &&& after == (PluginRecord { effects: after.effects, ..before })
                &&& after.effects@ == before.effects@.push(RestoreAction::AnyThread(action))
            }),
    {
        self.host.register_restore_any_thread(self.owner, action);
    }

    /// Starts the publish and install chain of one hook site.
    pub fn hook<C>(&self) -> (r: HookBuilder<C, Unpublished>)
        requires
            self.wf(),
        ensures
            r.attached() is None,
            r.gates() == (
                self.host().runtime_gate,
                self.host().of(self.owner()).gate.handle(),
            ),
    {
        HookBuilder::new(self.host.runtime_gate, self.host.owner_gate_reader(self.owner))
    }

    /// Installs the published hook of `site`. A confirmed installation leaves
    /// its restore action, which `wrap` makes of it, in the owner ledger; a
    /// failed one leaves the ledger as it was.
    pub fn install_hook<
        C,
        T: HookTarget,
        V: MethodResolver,
        W: FnOnce(InstalledHook<V::Memory>) -> H::AnyThread,
    >(
        &mut self,
        builder: HookBuilder<C, Published>,
        site: &mut HookSite<C>,
        resolver: &mut Option<V>,
        wrap: W,
    ) -> (r: Result<(), PluginError>)
        requires
            old(self).wf(),
            old(site)@ is Some && *old(resolver) is Some ==> crate::hook::installable(
                (*old(resolver))->Some_0,
                old(site)@->Some_0.replacement,
            ),
            forall|
                hook: InstalledHook<V::Memory>,
                asked: Option<V>,
                after: Option<SiteInner<C>>,
            | #[trigger]
                crate::hook::installation::<T, V, C>(
                    *old(resolver),
                    asked,
                    old(site)@,
                    after,
                    Ok(hook),
                ) ==> wrap.requires((hook,)),
        ensures
            final(self).hook_installed::<C, T, V, W>(
                *old(self),
                old(site)@,
                final(site)@,
                *old(resolver),
                *final(resolver),
                wrap,
                r,
            ),
    {
        let installed = builder.install::<T, V>(site, resolver);
        let ghost outcome = installed;
        assert(crate::hook::installation::<T, V, C>(
            *old(resolver),
            *resolver,
            old(site)@,
            site@,
            outcome,
        ));
        match installed {
            Ok(hook) => {
                let action = wrap(hook);
                let ghost made = action;
                assert(wrap.ensures((outcome->Ok_0,), made));
                self.host.register_restore_any_thread(self.owner, action);
                Ok(())
            },
            Err(error) => Err(error),
        }
    }

    /// A hook was installed on a site that went from `site` to `after`, through
    /// a resolver that went from `resolver` to `asked`, and noted as that came
    /// out.
    pub open spec fn hook_installed<
        C,
        T: HookTarget,
        V: MethodResolver,
        W: FnOnce(InstalledHook<V::Memory>) -> H::AnyThread,
    >(
        &self,
        before: Self,
        site: Option<SiteInner<C>>,
        after: Option<SiteInner<C>>,
        resolver: Option<V>,
        asked: Option<V>,
        wrap: W,
        r: Result<(), PluginError>,
    ) -> bool {
        exists|installed: Result<InstalledHook<V::Memory>, PluginError>|
            {
                &&& #[trigger] crate::hook::installation::<T, V, C>(
                    resolver,
                    asked,
                    site,
                    after,
                    installed,
                )
                &&& self.hook_noted::<V, W>(before, installed, wrap, r)
            }
    }

    /// The restore action of an installed hook, and nothing else, is new in the
    /// owner's record.
    pub open spec fn hook_noted<
        V: MethodResolver,
        W: FnOnce(InstalledHook<V::Memory>) -> H::AnyThread,
    >(
        &self,
        before: Self,
        installed: Result<InstalledHook<V::Memory>, PluginError>,
        wrap: W,
        r: Result<(), PluginError>,
    ) -> bool {
        let owner = before.owner();
        let old_record = before.host().of(owner);
        let new_record = self.host().of(owner);
        &&& self.wf()
        &&& self.owner() == owner
        &&& match installed {
            Ok(hook) => {
                &&& r is Ok
                &&& record_changed(before.host(), self.host(), owner, new_record)
                &&& new_record == (PluginRecord { effects: new_record.effects, ..old_record })
                &&& exists|action: H::AnyThread|
                    {
                        &&& #[trigger] wrap.ensures((hook,), action)
                        &&& new_record.effects@ == old_record.effects@.push(
                            RestoreAction::AnyThread(action),
                        )
                    }
            },
            Err(error) => r is Err && r->Err_0 == error && self.host() == before.host(),
        }
    }

    /// The id of the next route that is registered.
    pub open spec fn next_route(&self) -> RouteId {
        RouteId(self.host().routes@.len() as u64)
    }

    /// The registered route is `route`, and nothing else has changed.
    pub open spec fn routed<R>(&self, before: Self, route: RouteRegistration<H::Drain, R>) -> bool {
        &&& self.wf()
        &&& self.owner() == before.owner()
        &&& route_registered(
            before.host(),
            self.host(),
            before.owner(),
            route,
            before.next_route(),
        )
    }

    /// main to callback, `latest` semantics. Returns the two ends and the
    /// mailbox that they share.
    pub fn main_to_callback_latest<T: CallbackPayload>(&mut self, payload: &'static str) -> (r: (
        MainLatestWriter<T>,
        CallbackLatestReader<T>,
        LatestCell<T>,
    ))
        requires
            old(self).wf(),
            old(self).host().routes@.len() < u64::MAX,
        ensures
            final(self).routed(*old(self), outward(payload, "latest")),
            r.0.route() == old(self).next_route(),
            r.1.route() == old(self).next_route(),
            r.2@ is None,
    {
        let id = self.host.register_route_dyn(
            self.owner,
            RouteRegistration {
                direction: RouteDirection::MainToCallback,
                payload,
                mailbox: "latest",
                drain: None,
                ensure_receiver: no_receiver(|| {}),
            },
        );
        (MainLatestWriter::new(Ghost(id)), CallbackLatestReader::new(Ghost(id)), LatestCell::new())
    }

    /// main to callback, `bounded` semantics.
    pub fn main_to_callback_bounded<T: CallbackPayload, const N: usize>(
        &mut self,
        payload: &'static str,
    ) -> (r: (MainBoundedWriter<T, N>, CallbackBoundedReader<T, N>, BoundedQueue<T, N>))
        requires
            old(self).wf(),
            old(self).host().routes@.len() < u64::MAX,
            0 < N < usize::MAX / 2,
        ensures
            final(self).routed(*old(self), outward(payload, "bounded")),
            r.0.route() == old(self).next_route(),
            r.1.route() == old(self).next_route(),
            r.2.wf(),
            r.2@ == Seq::<T>::empty(),
    {
        let id = self.host.register_route_dyn(
            self.owner,
            RouteRegistration {
                direction: RouteDirection::MainToCallback,
                payload,
                mailbox: "bounded",
                drain: None,
                ensure_receiver: no_receiver(|| {}),
            },
        );
        (MainBoundedWriter::new(Ghost(id)), CallbackBoundedReader::new(Ghost(id)), BoundedQueue::new())
    }

    /// main to callback, `shared_latest` semantics.
    pub fn main_to_callback_shared<T>(&mut self, payload: &'static str) -> (r: (
        MainSharedWriter<T>,
        CallbackSharedReader<T>,
        SharedSlot<T>,
    ))
        requires
            old(self).wf(),
            old(self).host().routes@.len() < u64::MAX,
        ensures
            final(self).routed(*old(self), outward(payload, "shared_latest")),
            r.0.route() == old(self).next_route(),
            r.1.route() == old(self).next_route(),
            r.2@ is None,
    {
        let id = self.host.register_route_dyn(
            self.owner,
            RouteRegistration {
                direction: RouteDirection::MainToCallback,
                payload,
                mailbox: "shared_latest",
                drain: None,
                ensure_receiver: no_receiver(|| {}),
            },
        );
        (MainSharedWriter::new(Ghost(id)), CallbackSharedReader::new(Ghost(id)), SharedSlot::new())
    }

    /// callback to main, `latest` semantics, drained through `drain` into what
    /// `receiver` registers.
    pub fn callback_to_main_latest<T: CallbackPayload, R: FnOnce()>(
        &mut self,
        payload: &'static str,
        drain: H::Drain,
        receiver: MessageRegister<R>,
    ) -> (r: (CallbackLatestWriter<T>, MainLatestReader<T>, LatestCell<T>))
        requires
            old(self).wf(),
            old(self).host().routes@.len() < u64::MAX,
            receiver.register.requires(()),
        ensures
            final(self).routed(*old(self), inward(payload, "latest", drain, receiver)),
            receiver.register.ensures((), ()),
            r.0.route() == old(self).next_route(),
            r.1.route() == old(self).next_route(),
            r.2@ is None,
    {
        let id = self.host.register_route_dyn(
            self.owner,
            RouteRegistration {
                direction: RouteDirection::CallbackToMain,
                payload,
                mailbox: "latest",
                drain: Some(drain),
                ensure_receiver: Some(receiver),
            },
        );
        (CallbackLatestWriter::new(Ghost(id)), MainLatestReader::new(Ghost(id)), LatestCell::new())
    }

    /// callback to main, `bounded` semantics, drained through `drain` into what
    /// `receiver` registers.
    pub fn callback_to_main_bounded<T: CallbackPayload, R: FnOnce(), const N: usize>(
        &mut self,
        payload: &'static str,
        drain: H::Drain,
        receiver: MessageRegister<R>,
    ) -> (r: (CallbackBoundedWriter<T, N>, MainBoundedReader<T, N>, BoundedQueue<T, N>))
        requires
            old(self).wf(),
            old(self).host().routes@.len() < u64::MAX,
            receiver.register.requires(()),
            0 < N < usize::MAX / 2,
        ensures
            final(self).routed(*old(self), inward(payload, "bounded", drain, receiver)),
            receiver.register.ensures((), ()),
            r.0.route() == old(self).next_route(),
            r.1.route() == old(self).next_route(),
            r.2.wf(),
            r.2@ == Seq::<T>::empty(),
    {
        let id = self.host.register_route_dyn(
            self.owner,
            RouteRegistration {
                direction: RouteDirection::CallbackToMain,
                payload,
                mailbox: "bounded",
                drain: Some(drain),
                ensure_receiver: Some(receiver),
            },
        );
        (CallbackBoundedWriter::new(Ghost(id)), MainBoundedReader::new(Ghost(id)), BoundedQueue::new())
    }

    /// callback to main, `shared_latest` semantics, drained through `drain` into what
    /// `receiver` registers.
    pub fn callback_to_main_shared<T, R: FnOnce()>(
        &mut self,
        payload: &'static str,
        drain: H::Drain,
        receiver: MessageRegister<R>,
    ) -> (r: (CallbackSharedWriter<T>, MainSharedReader<T>, SharedSlot<T>))
        requires
            old(self).wf(),
            old(self).host().routes@.len() < u64::MAX,
            receiver.register.requires(()),
        ensures
            final(self).routed(*old(self), inward(payload, "shared_latest", drain, receiver)),
            receiver.register.ensures((), ()),
            r.0.route() == old(self).next_route(),
            r.1.route() == old(self).next_route(),
            r.2@ is None,
    {
        let id = self.host.register_route_dyn(
            self.owner,
            RouteRegistration {
                direction: RouteDirection::CallbackToMain,
                payload,
                mailbox: "shared_latest",
                drain: Some(drain),
                ensure_receiver: Some(receiver),
            },
        );
        (CallbackSharedWriter::new(Ghost(id)), MainSharedReader::new(Ghost(id)), SharedSlot::new())
    }
}

/// `registration` is the one of a new topic behind the gates of an owner.
pub open spec fn fresh_topic<P, D>(
    registration: DebugTopicRegistration<P, D>,
    name: &'static str,
    decode: D,
    callback_domain: bool,
    owner_gate: GateReader,
    runtime_gate: GateReader,
) -> bool {
    &&& registration.name == name
    &&& registration.decode == decode
    &&& registration.callback_domain == callback_domain
    &&& registration.channel@ == (ChannelView::<P> {
        inbox: Seq::empty(),
        outbox: Seq::empty(),
        pending: 0,
    })
    &&& registration.channel.owner_gate == owner_gate
    &&& registration.channel.runtime_gate == runtime_gate
}

impl<H: HostTypes> AppCtx<H> {
    /// The topic and its update system were registered where the registry gave
    /// it an id, and nothing was changed where it refused it.
    pub open spec fn topic_noted(
        &self,
        before: Self,
        system: H::Update,
        registered: Result<TopicId, PluginError>,
        r: Result<(), PluginError>,
    ) -> bool {
        let owner = before.owner();
        let old_record = before.host().of(owner);
        let new_record = self.host().of(owner);
        &&& self.wf()
        &&& self.owner() == owner
        &&& record_changed(before.host(), self.host(), owner, new_record)
        &&& new_record == (PluginRecord {
            update: new_record.update,
            topic_ids: new_record.topic_ids,
            ..old_record
        })
        &&& match registered {
            Ok(topic) => {
                &&& r is Ok
                &&& new_record.topic_ids@ == old_record.topic_ids@.push(topic)
                &&& new_record.update@ == old_record.update@.push(system)
            },
            Err(error) => {
                &&& r is Err && r->Err_0 == error
                &&& new_record.topic_ids@ == old_record.topic_ids@
                &&& new_record.update@ == old_record.update@
            },
        }
    }

    /// A topic was offered to the registry behind the gates of the owner, and
    /// noted as the registry answered.
    pub open spec fn topic_registered<
        P,
        D,
        G: FnOnce(DebugTopicRegistration<P, D>) -> Result<TopicId, PluginError>,
    >(
        &self,
        before: Self,
        name: &'static str,
        decode: D,
        callback_domain: bool,
        register: G,
        system: H::Update,
        r: Result<(), PluginError>,
    ) -> bool {
        exists|
            registration: DebugTopicRegistration<P, D>,
            registered: Result<TopicId, PluginError>,
        |
            {
                &&& fresh_topic(
                    registration,
                    name,
                    decode,
                    callback_domain,
                    before.host().of(before.owner()).gate.handle(),
                    before.host().runtime_gate,
                )
                &&& #[trigger] register.ensures((registration,), registered)
                &&& self.topic_noted(before, system, registered, r)
            }
    }

    fn register_topic<P, D, G: FnOnce(DebugTopicRegistration<P, D>) -> Result<TopicId, PluginError>>(
        &mut self,
        name: &'static str,
        decode: D,
        callback_domain: bool,
        register: G,
        system: H::Update,
    ) -> (r: Result<(), PluginError>)
        requires
            old(self).wf(),
            forall|registration: DebugTopicRegistration<P, D>|
                fresh_topic(
                    registration,
                    name,
                    decode,
                    callback_domain,
                    old(self).host().of(old(self).owner()).gate.handle(),
                    old(self).host().runtime_gate,
                ) ==> #[trigger] register.requires((registration,)),
        ensures
            final(self).topic_registered::<P, D, G>(
                *old(self),
                name,
                decode,
                callback_domain,
                register,
                system,
                r,
            ),
    {
        let channel = DebugTopicChannel::new(
            self.host.owner_gate_reader(self.owner),
            self.host.runtime_gate,
        );
        let registration = DebugTopicRegistration { name, channel, decode, callback_domain };
        let ghost request = registration;
        let registered = register(registration);
        let ghost reply = registered;
        assert(register.ensures((request,), reply));
        let noted = self.host.register_debug_topic_dyn(self.owner, registered);
        if noted.is_ok() {
            self.host.add_update_system_dyn(self.owner, system);
        }
        assert(self.host().plugins@ =~= old(self).host().plugins@.update(
            self.owner().0 as int,
            self.host().of(self.owner()),
        ));
        assert(self.topic_noted(*old(self), system, reply, noted));
        noted
    }

    /// Registers a main-domain debug topic: the registry entry, and its handler
    /// system as an ordinary Update system of this plugin. `register` asks the
    /// topic registry, which refuses a name that is taken.
    pub fn register_main_debug<
        P,
        D,
        G: FnOnce(DebugTopicRegistration<P, D>) -> Result<TopicId, PluginError>,
    >(&mut self, name: &'static str, decode: D, register: G, system: H::Update) -> (r: Result<
        (),
        PluginError,
    >)
        requires
            old(self).wf(),
            forall|registration: DebugTopicRegistration<P, D>|
                fresh_topic(
                    registration,
                    name,
                    decode,
                    false,
                    old(self).host().of(old(self).owner()).gate.handle(),
                    old(self).host().runtime_gate,
                ) ==> #[trigger] register.requires((registration,)),
        ensures
            final(self).topic_registered::<P, D, G>(
                *old(self),
                name,
                decode,
                false,
                register,
                system,
                r,
            ),
    {
        self.register_topic(name, decode, false, register, system)
    }

    /// Registers a callback-domain debug topic: the registry entry, and its
    /// relay system as an ordinary Update system of this plugin. Returns the
    /// slots that the relay and the hook callback share.
    pub fn register_callback_debug<
        P,
        D,
        Req,
        Res,
        G: FnOnce(DebugTopicRegistration<P, D>) -> Result<TopicId, PluginError>,
    >(&mut self, name: &'static str, decode: D, register: G, system: H::Update) -> (r: Result<
        CallbackDebugEndpoints<Req, Res>,
        PluginError,
    >)
        requires
            old(self).wf(),
            forall|registration: DebugTopicRegistration<P, D>|
                fresh_topic(
                    registration,
                    name,
                    decode,
                    true,
                    old(self).host().of(old(self).owner()).gate.handle(),
                    old(self).host().runtime_gate,
                ) ==> #[trigger] register.requires((registration,)),
        ensures
            r is Ok ==> r->Ok_0.request@ is None && r->Ok_0.response@ is None,
            final(self).topic_registered::<P, D, G>(
                *old(self),
                name,
                decode,
                true,
                register,
                system,
                match r {
                    Ok(_) => Ok(()),
                    Err(error) => Err(error),
                },
            ),
    {
        match self.register_topic(name, decode, true, register, system) {
            Ok(()) => Ok(CallbackDebugEndpoints::new()),
            Err(error) => Err(error),
        }
    }
}

/// One debug topic: how its requests are decoded, what offers it to the
/// registry, and the system that answers it.
pub struct TopicParts<D, G, U> {
    pub decode: D,
    pub register: G,
    pub system: U,
}

/// `first` went well and `rest` says how it went on, or `first` was the end.
pub open spec fn chained<H: HostTypes>(
    first: Result<(), PluginError>,
    middle: AppCtx<H>,
    last: AppCtx<H>,
    rest: bool,
    r: Result<(), PluginError>,
) -> bool {
    match first {
        Ok(_) => rest,
        Err(error) => r is Err && r->Err_0 == error && last == middle,
    }
}

/// What one owner registers leaves every other owner's record as it was.
pub proof fn other_owners_are_untouched<H: HostTypes>(
    before: PluginHost<H>,
    after: PluginHost<H>,
    owner: OwnerId,
    record: PluginRecord<H>,
    other: OwnerId,
)
    requires
        before.serves(owner),
        before.plugins.knows(other),
        record_changed(before, after, owner, record),
        other != owner,
    ensures
        after.of(other) == before.of(other),
        after.plugins.knows(other),
{
}

} // verus!
