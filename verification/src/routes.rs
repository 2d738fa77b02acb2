//! Cross-domain route table.

use vstd::prelude::*;

use crate::base::{OwnerId, RouteId};

verus! {

/// Direction of a cross-domain route.
#[derive(Debug, Clone, Copy, PartialEq, Eq, Structural)]
pub enum RouteDirection {
    /// Update systems write, hook callbacks read.
    MainToCallback,
    /// Hook callbacks write; the drain stage delivers into the main-side
    /// receiver.
    CallbackToMain,
}

/// Makes sure that the main side can receive one kind of message. `register`
/// does it; where the kind is known already, it changes nothing.
pub struct MessageRegister<R> {
    pub register: R,
}

/// One route registration request. `D` is the handle that drains the mailbox.
pub struct RouteRegistration<D, R> {
    pub direction: RouteDirection,
    /// Payload type name, for introspection only.
    pub payload: &'static str,
    /// Mailbox semantics label (`latest`, `bounded` or `shared_latest`).
    pub mailbox: &'static str,
    /// Present for callback-to-main routes.
    pub drain: Option<D>,
    /// Present for callback-to-main routes: what the drain delivers into.
    pub ensure_receiver: Option<MessageRegister<R>>,
}

/// One registered cross-domain route.
pub struct RouteEntry<D> {
    pub id: RouteId,
    pub owner: OwnerId,
    pub direction: RouteDirection,
    /// Payload type name (introspection only).
    pub payload: &'static str,
    /// Mailbox semantics label (`latest`, `bounded` or `shared_latest`).
    pub mailbox: &'static str,
    /// Present for callback-to-main routes: drains into the main-side receiver.
    pub drain: Option<D>,
}

impl<D> RouteEntry<D> {
    /// Current visible depth (0 for routes without a drain), where `visible`
    /// tells how many items a drain sees.
    #[must_use]
    pub fn depth<F: Fn(&D) -> usize>(&self, visible: &F) -> (r: usize)
        requires
            self.drain matches Some(drain) ==> visible.requires((&drain,)),
        ensures
            match self.drain {
                Some(drain) => visible.ensures((&drain,), r),
                None => r == 0,
            },
    {
        match &self.drain {
            Some(drain) => visible(drain),
            None => 0,
        }
    }
}

/// All registered routes in registration order.
pub struct RouteTable<D> {
    entries: Vec<RouteEntry<D>>,
    next_id: u64,
}

impl<D> View for RouteTable<D> {
    type V = Seq<RouteEntry<D>>;

    closed spec fn view(&self) -> Seq<RouteEntry<D>> {
        self.entries@
    }
}

/// An active callback-to-main route with a drain.
pub open spec fn is_drained<D>(entry: RouteEntry<D>, active: bool) -> bool {
    entry.direction is CallbackToMain && active && entry.drain is Some
}

/// The drains of the first `count` entries, given which owners are active.
pub open spec fn drains<D>(entries: Seq<RouteEntry<D>>, active: Seq<bool>, count: nat) -> Seq<D>
    decreases count,
{
    if count == 0 {
        Seq::empty()
    } else {
        let before = drains(entries, active, (count - 1) as nat);
        let entry = entries[count - 1];
        if is_drained(entry, active[count - 1]) {
            before.push(entry.drain->Some_0)
        } else {
            before
        }
    }
}

impl<D> RouteTable<D> {
    /// Every route bears the id of its place.
    pub closed spec fn wf(&self) -> bool {
        &&& self.next_id == self.entries.len()
        &&& forall|i: int|
            0 <= i < self.entries.len() ==> (#[trigger] self.entries[i]).id == RouteId(i as u64)
    }

    #[must_use]
    pub fn new() -> (r: Self)
        ensures
            r.wf(),
            r@ == Seq::<RouteEntry<D>>::empty(),
    {
        RouteTable { entries: Vec::new(), next_id: 0 }
    }

    /// Appends a route of `owner` and gives it the next id.
    pub fn push<R>(&mut self, owner: OwnerId, route: RouteRegistration<D, R>) -> (r: RouteId)
        requires
            old(self).wf(),
            old(self)@.len() < u64::MAX,
        ensures
            final(self).wf(),
            r == RouteId(old(self)@.len() as u64),
            final(self)@ == old(self)@.push(
                RouteEntry {
                    id: r,
                    owner,
                    direction: route.direction,
                    payload: route.payload,
                    mailbox: route.mailbox,
                    drain: route.drain,
                },
            ),
    {
        let id = RouteId(self.next_id);
        self.next_id = self.next_id + 1;
        self.entries.push(
            RouteEntry {
                id,
                owner,
                direction: route.direction,
                payload: route.payload,
                mailbox: route.mailbox,
                drain: route.drain,
            },
        );
        id
    }

    #[must_use]
    pub fn entries(&self) -> (r: &[RouteEntry<D>])
        ensures
            r@ == self@,
    {
        self.entries.as_slice()
    }

    /// Drain handles of callback-to-main routes owned by currently active
    /// plugins, in registration order.
    #[must_use]
    pub fn active_drains<F: Fn(OwnerId) -> bool>(&self, is_active: &F) -> (r: Vec<D>) where
        D: Copy,

        requires
            forall|owner: OwnerId| #[trigger] is_active.requires((owner,)),
        ensures
            exists|active: Seq<bool>|
                {
                    &&& active.len() == self@.len()
                    &&& forall|i: int|
                        0 <= i < active.len() && self@[i].direction is CallbackToMain
                            ==> is_active.ensures((self@[i].owner,), #[trigger] active[i])
                    &&& r@ == #[trigger] drains(self@, active, self@.len())
                },
    {
        let mut handles: Vec<D> = Vec::new();
        let ghost mut active: Seq<bool> = Seq::empty();
        let mut index: usize = 0;
        while index < self.entries.len()
            invariant
                index <= self.entries.len(),
                active.len() == index,
                forall|owner: OwnerId| #[trigger] is_active.requires((owner,)),
                forall|i: int|
                    0 <= i < active.len() && self@[i].direction is CallbackToMain
                        ==> is_active.ensures((self@[i].owner,), #[trigger] active[i]),
                handles@ == drains(self@, active, index as nat),
            decreases self.entries.len() - index,
        {
            let entry = &self.entries[index];
            let mut verdict: bool = false;
            if entry.direction == RouteDirection::CallbackToMain {
                verdict = is_active(entry.owner);
                if verdict {
                    if let Some(drain) = &entry.drain {
                        handles.push(*drain);
                    }
                }
            }
            proof {
                let earlier = active;
                active = earlier.push(verdict);
                lemma_drains_prefix(self@, earlier, active, index as nat);
            }
            index = index + 1;
        }
        assert(handles@ == drains(self@, active, self@.len()));
        handles
    }

    /// Snapshot for introspection: payload, mailbox label and depth.
    #[must_use]
    pub fn snapshot<F: Fn(&D) -> usize>(&self, visible: &F) -> (r: Vec<
        (&'static str, &'static str, usize),
    >)
        requires
            forall|drain: &D| #[trigger] visible.requires((drain,)),
        ensures
            r.len() == self@.len(),
            forall|i: int|
                0 <= i < r.len() ==> {
                    &&& (#[trigger] r[i]).0 == self@[i].payload
                    &&& r[i].1 == self@[i].mailbox
                    &&& match self@[i].drain {
                        Some(drain) => visible.ensures((&drain,), r[i].2),
                        None => r[i].2 == 0,
                    }
                },
    {
        let mut rows: Vec<(&'static str, &'static str, usize)> = Vec::new();
        let mut index: usize = 0;
        while index < self.entries.len()
            invariant
                index <= self.entries.len(),
                rows.len() == index,
                forall|drain: &D| #[trigger] visible.requires((drain,)),
                forall|i: int|
                    0 <= i < rows.len() ==> {
                        &&& (#[trigger] rows[i]).0 == self@[i].payload
                        &&& rows[i].1 == self@[i].mailbox
                        &&& match self@[i].drain {
                            Some(drain) => visible.ensures((&drain,), rows[i].2),
                            None => rows[i].2 == 0,
                        }
                    },
            decreases self.entries.len() - index,
        {
            let entry = &self.entries[index];
            let depth: usize = entry.depth(visible);
            rows.push((entry.payload, entry.mailbox, depth));
            index = index + 1;
        }
        rows
    }
}

proof fn lemma_drains_prefix<D>(
    entries: Seq<RouteEntry<D>>,
    active: Seq<bool>,
    more: Seq<bool>,
    count: nat,
)
    requires
        count <= active.len() <= more.len(),
        forall|i: int| 0 <= i < count ==> active[i] == #[trigger] more[i],
    ensures
        drains(entries, active, count) == drains(entries, more, count),
    decreases count,
{
    if count > 0 {
        lemma_drains_prefix(entries, active, more, (count - 1) as nat);
    }
}

/// Ids of routes are never reused: two routes of a table have different ids.
pub proof fn route_ids_are_unique<D>(table: RouteTable<D>, i: int, j: int)
    requires
        table.wf(),
        0 <= i < j < table@.len(),
    ensures
        table@[i].id != table@[j].id,
{
}

} // verus!
