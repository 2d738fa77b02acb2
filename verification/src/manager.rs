//! Owner ledger and per-plugin runtime records.

use vstd::prelude::*;

use crate::base::{OwnerId, RouteId, TopicId};
use crate::gate::{GateBoard, GateState, PluginGate};
use crate::phase::RestoreAction;

verus! {

/// What the application stores for an owner without looking inside.
pub trait HostTypes {
    /// A startup system.
    type Startup;

    /// An update system.
    type Update;

    /// A restore action for any thread.
    type AnyThread;

    /// A restore action for the main thread.
    type MainThread;

    /// The key of a resource type.
    type TypeKey;

    /// What removes an inserted resource.
    type Remove;

    /// A callback container.
    type Container;

    /// A handle that drains a route.
    type Drain;
}

/// Minimal logical state of a plugin. Failure reasons live in observability
/// events only.
#[derive(Debug, Clone, Copy, PartialEq, Eq, Structural)]
pub enum PluginState {
    Active,
    Retired,
}

/// One resource inserted by an owner, recorded for rollback in reverse order.
pub struct ResourceLedgerEntry<K, R> {
    pub type_id: K,
    pub type_label: &'static str,
    pub order: u64,
    pub remove: R,
}

/// Runtime record of one plugin owner scope.
pub struct PluginRecord<H: HostTypes> {
    pub id: OwnerId,
    pub name: &'static str,
    pub state: PluginState,
    pub startup: Vec<H::Startup>,
    pub update: Vec<H::Update>,
    /// Restore ledger (reverse-order rollback).
    pub effects: Vec<RestoreAction<H::AnyThread, H::MainThread>>,
    /// Inserted resources of this owner, in order.
    pub inserted: Vec<ResourceLedgerEntry<H::TypeKey, H::Remove>>,
    /// The plugin's single callback container, retained for the process
    /// lifetime (retention root).
    pub container: Option<H::Container>,
    pub route_ids: Vec<RouteId>,
    pub topic_ids: Vec<TopicId>,
    pub gate: PluginGate,
}

impl<H: HostTypes> PluginRecord<H> {
    /// An active owner that has registered nothing.
    pub open spec fn is_fresh(&self) -> bool {
        &&& self.state is Active
        &&& self.startup@.len() == 0
        &&& self.update@.len() == 0
        &&& self.effects@.len() == 0
        &&& self.inserted@.len() == 0
        &&& self.container is None
        &&& self.route_ids@.len() == 0
        &&& self.topic_ids@.len() == 0
    }

    /// The inserted resources are numbered in order.
    pub open spec fn ledger_ordered(&self) -> bool {
        forall|i: int|
            0 <= i < self.inserted@.len() ==> (#[trigger] self.inserted@[i]).order == i
    }

    pub(crate) fn new(id: OwnerId, name: &'static str, gate: PluginGate) -> (r: Self)
        ensures
            r.is_fresh(),
            r.id == id,
            r.name == name,
            r.gate == gate,
    {
        PluginRecord {
            id,
            name,
            state: PluginState::Active,
            startup: Vec::new(),
            update: Vec::new(),
            effects: Vec::new(),
            inserted: Vec::new(),
            container: None,
            route_ids: Vec::new(),
            topic_ids: Vec::new(),
            gate,
        }
    }
}

/// Owner-scoped records in registration order.
pub struct PluginManager<H: HostTypes> {
    records: Vec<PluginRecord<H>>,
    next_owner: u64,
}

impl<H: HostTypes> View for PluginManager<H> {
    type V = Seq<PluginRecord<H>>;

    closed spec fn view(&self) -> Seq<PluginRecord<H>> {
        self.records@
    }
}

/// The ids of the active ones among the first `count` records.
pub open spec fn active_ids<H: HostTypes>(records: Seq<PluginRecord<H>>, count: nat) -> Seq<OwnerId>
    decreases count,
{
    if count == 0 {
        Seq::empty()
    } else {
        let before = active_ids(records, (count - 1) as nat);
        if records[count - 1].state is Active {
            before.push(records[count - 1].id)
        } else {
            before
        }
    }
}

impl<H: HostTypes> PluginManager<H> {
    /// Every owner bears the id of its place, and its ledger is in order.
    pub closed spec fn wf(&self) -> bool {
        &&& self.next_owner == self.records.len()
        &&& forall|i: int|
            0 <= i < self.records.len() ==> {
                &&& (#[trigger] self.records[i]).id == OwnerId(i as u64)
                &&& self.records[i].ledger_ordered()
            }
    }

    /// `id` was handed out by this manager.
    pub open spec fn knows(&self, id: OwnerId) -> bool {
        id.0 < self@.len()
    }

    #[must_use]
    pub fn new() -> (r: Self)
        ensures
            r.wf(),
            r@ == Seq::<PluginRecord<H>>::empty(),
    {
        PluginManager { records: Vec::new(), next_owner: 0 }
    }

    /// Opens the scope of a new owner. Its gate starts closed.
    pub fn begin_owner(&mut self, name: &'static str, board: &mut GateBoard) -> (r: OwnerId)
        requires
            old(self).wf(),
            old(self)@.len() < u64::MAX,
        ensures
            final(self).wf(),
            r == OwnerId(old(self)@.len() as u64),
            final(self)@.len() == old(self)@.len() + 1,
            final(self)@.drop_last() == old(self)@,
            final(self)@.last().is_fresh(),
            final(self)@.last().id == r,
            final(self)@.last().name == name,
            final(self)@.last().gate.handle().place() == old(board)@.len(),
            final(board)@ == old(board)@.push(GateState::Closed),
    {
        let id = OwnerId(self.next_owner);
        self.next_owner = self.next_owner + 1;
        let gate = PluginGate::new(board);
        self.records.push(PluginRecord::new(id, name, gate));
        assert(self@.drop_last() =~= old(self)@);
        id
    }

    /// The record of an owner of this manager.
    #[must_use]
    pub fn record(&self, id: OwnerId) -> (r: &PluginRecord<H>)
        requires
            self.wf(),
            self.knows(id),
        ensures
            *r == self@[id.0 as int],
            r.id == id,
            r.ledger_ordered(),
    {
        let mut index: usize = 0;
        while self.records[index].id != id
            invariant
                self.wf(),
                self.knows(id),
                index <= id.0,
            decreases id.0 - index,
        {
            index = index + 1;
        }
        &self.records[index]
    }

    /// The record of an owner of this manager, to be changed.
    pub(crate) fn record_mut(&mut self, id: OwnerId) -> (r: &mut PluginRecord<H>)
        requires
            old(self).wf(),
            old(self).knows(id),
        ensures
            *r == old(self)@[id.0 as int],
            r.id == id,
            r.ledger_ordered(),
            final(self)@ == old(self)@.update(id.0 as int, *final(r)),
            final(r).id == id && final(r).ledger_ordered() ==> final(self).wf(),
    {
        let index: usize = id.0 as usize;
        &mut self.records[index]
    }

    /// Ids of owners that are not retired, in registration order.
    #[must_use]
    pub fn active_owner_ids(&self) -> (r: Vec<OwnerId>)
        ensures
            r@ == active_ids(self@, self@.len()),
    {
        let mut ids: Vec<OwnerId> = Vec::new();
        let mut index: usize = 0;
        while index < self.records.len()
            invariant
                index <= self.records.len(),
                ids@ == active_ids(self@, index as nat),
            decreases self.records.len() - index,
        {
            if self.records[index].state == PluginState::Active {
                ids.push(self.records[index].id);
            }
            index = index + 1;
        }
        ids
    }

    #[must_use]
    pub fn records(&self) -> (r: &[PluginRecord<H>])
        ensures
            r@ == self@,
    {
        self.records.as_slice()
    }

    #[must_use]
    pub fn is_active(&self, id: OwnerId) -> (r: bool)
        requires
            self.wf(),
            self.knows(id),
        ensures
            r == (self@[id.0 as int].state is Active),
    {
        self.record(id).state == PluginState::Active
    }
}

} // verus!
