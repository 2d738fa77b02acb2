//! Direction-branded cross-domain message endpoints.
//!
//! Callbacks and the main thread are separate execution domains; the direction
//! and the mailbox semantics are part of the endpoint type, so that using an
//! endpoint from the wrong domain is a compile error. The callback side
//! requires a [`CallbackCtx`], the main side an [`UpdateCtx`]. The two
//! endpoints of a route are handed the mailbox that they share.

use core::marker::PhantomData;
use std::sync::Arc;

use vstd::prelude::*;

use crate::base::RouteId;
use crate::callback::CallbackCtx;
use crate::container::{
    BoundedQueue, CallbackPayload, LatestCell, SendOutcome, SharedSlot, SlotAccess, SlotBusy,
};
use crate::phase::UpdateCtx;

verus! {

/// Main-side receiver of callback-to-main messages; absent until it is
/// registered.
pub struct MainInbox<T> {
    messages: Option<Vec<T>>,
}

impl<T> View for MainInbox<T> {
    type V = Option<Seq<T>>;

    closed spec fn view(&self) -> Option<Seq<T>> {
        match self.messages {
            Some(messages) => Some(messages@),
            None => None,
        }
    }
}

impl<T> MainInbox<T> {
    pub fn new() -> (r: Self)
        ensures
            r@ is None,
    {
        MainInbox { messages: None }
    }

    /// Registers the receiver; one that is there keeps its messages.
    pub fn register(&mut self)
        ensures
            final(self)@ == if old(self)@ is Some {
                old(self)@
            } else {
                Some(Seq::<T>::empty())
            },
    {
        if self.messages.is_none() {
            self.messages = Some(Vec::new());
        }
    }

    /// Whether the receiver is registered.
    pub fn is_registered(&self) -> (r: bool)
        ensures
            r == (self@ is Some),
    {
        self.messages.is_some()
    }

    /// Writes one message; `false` where the receiver is not registered.
    pub fn write(&mut self, value: T) -> (r: bool)
        ensures
            r == (old(self)@ is Some),
            final(self)@ == match old(self)@ {
                Some(messages) => Some(messages.push(value)),
                None => None,
            },
    {
        match self.messages.take() {
            Some(messages) => {
                let mut messages = messages;
                messages.push(value);
                self.messages = Some(messages);
                true
            },
            None => false,
        }
    }

    /// Takes every message, oldest first.
    pub fn read(&mut self) -> (r: Vec<T>)
        ensures
            r@ == match old(self)@ {
                Some(messages) => messages,
                None => Seq::<T>::empty(),
            },
            final(self)@ == match old(self)@ {
                Some(_) => Some(Seq::<T>::empty()),
                None => None,
            },
    {
        match self.messages.take() {
            Some(messages) => {
                self.messages = Some(Vec::new());
                messages
            },
            None => Vec::new(),
        }
    }
}

/// Envelope of `shared_latest` callback-to-main messages.
pub struct SharedEnvelope<T>(pub Arc<T>);

// ---------------------------------------------------------------------------
// latest semantics
// ---------------------------------------------------------------------------

/// Writes the latest value toward the callback domain (Update systems only).
pub struct MainLatestWriter<T>(PhantomData<T>, Ghost<RouteId>);

impl<T: CallbackPayload> MainLatestWriter<T> {
    /// The route that this is an end of.
    pub closed spec fn route(&self) -> RouteId {
        self.1@
    }

    pub(crate) fn new(Ghost(route): Ghost<RouteId>) -> (r: Self)
        ensures
            r.route() == route,
    {
        MainLatestWriter(PhantomData, Ghost(route))
    }

    /// Overwrites the current value. Never blocks, never returns `Full`.
    pub fn try_send(&self, _ctx: &UpdateCtx<'_>, mailbox: &mut LatestCell<T>, value: T) -> (r:
        SendOutcome)
        ensures
            final(mailbox)@ == Some(value),
            r == if old(mailbox)@ is Some {
                SendOutcome::Replaced
            } else {
                SendOutcome::Accepted
            },
    {
        mailbox.try_send(value)
    }
}

/// Reads the latest value inside a hook callback.
pub struct CallbackLatestReader<T>(PhantomData<T>, Ghost<RouteId>);

impl<T: CallbackPayload> CallbackLatestReader<T> {
    /// The route that this is an end of.
    pub closed spec fn route(&self) -> RouteId {
        self.1@
    }

    pub(crate) fn new(Ghost(route): Ghost<RouteId>) -> (r: Self)
        ensures
            r.route() == route,
    {
        CallbackLatestReader(PhantomData, Ghost(route))
    }

    #[must_use]
    pub fn try_read(&self, _ctx: &CallbackCtx, mailbox: &LatestCell<T>) -> (r: Option<T>)
        ensures
            r == mailbox@,
    {
        mailbox.try_read()
    }
}

/// Writes the latest value toward the main domain (inside hook callbacks).
pub struct CallbackLatestWriter<T>(PhantomData<T>, Ghost<RouteId>);

impl<T: CallbackPayload> CallbackLatestWriter<T> {
    /// The route that this is an end of.
    pub closed spec fn route(&self) -> RouteId {
        self.1@
    }

    pub(crate) fn new(Ghost(route): Ghost<RouteId>) -> (r: Self)
        ensures
            r.route() == route,
    {
        CallbackLatestWriter(PhantomData, Ghost(route))
    }

    pub fn try_send(&self, _ctx: &CallbackCtx, mailbox: &mut LatestCell<T>, value: T) -> (r:
        SendOutcome)
        ensures
            final(mailbox)@ == Some(value),
            r == if old(mailbox)@ is Some {
                SendOutcome::Replaced
            } else {
                SendOutcome::Accepted
            },
    {
        mailbox.try_send(value)
    }
}

/// Main-side end of a callback-to-main latest route. The drain stage delivers
/// the value into the main-side receiver.
pub struct MainLatestReader<T>(PhantomData<T>, Ghost<RouteId>);

impl<T: CallbackPayload> MainLatestReader<T> {
    /// The route that this is an end of.
    pub closed spec fn route(&self) -> RouteId {
        self.1@
    }

    pub(crate) fn new(Ghost(route): Ghost<RouteId>) -> (r: Self)
        ensures
            r.route() == route,
    {
        MainLatestReader(PhantomData, Ghost(route))
    }

    /// Items currently visible in the mailbox.
    #[must_use]
    pub fn depth(&self, mailbox: &LatestCell<T>) -> (r: usize)
        ensures
            r == if mailbox@ is Some {
                1int
            } else {
                0
            },
    {
        match mailbox.try_read() {
            Some(_) => 1,
            None => 0,
        }
    }

    /// Drains at most `watermark` items into the receiver and returns how many
    /// were delivered. A value that finds no receiver is lost.
    pub fn drain(
        &self,
        mailbox: &mut LatestCell<T>,
        receiver: &mut MainInbox<T>,
        watermark: usize,
    ) -> (r: usize)
        ensures
            if watermark == 0 {
                &&& r == 0
                &&& final(mailbox)@ == old(mailbox)@
                &&& final(receiver)@ == old(receiver)@
            } else {
                &&& final(mailbox)@ is None
                &&& match (old(mailbox)@, old(receiver)@) {
                    (Some(value), Some(messages)) => r == 1 && final(receiver)@ == Some(
                        messages.push(value),
                    ),
                    _ => r == 0 && final(receiver)@ == old(receiver)@,
                }
            },
    {
        if watermark == 0 {
            return 0;
        }
        match mailbox.take() {
            None => 0,
            Some(value) => if receiver.write(value) {
                1
            } else {
                0
            },
        }
    }
}

// ---------------------------------------------------------------------------
// bounded semantics
// ---------------------------------------------------------------------------

/// Pushes into the bounded queue toward the callback domain (Update systems).
pub struct MainBoundedWriter<T, const N: usize>(PhantomData<T>, Ghost<RouteId>);

impl<T: CallbackPayload, const N: usize> MainBoundedWriter<T, N> {
    /// The route that this is an end of.
    pub closed spec fn route(&self) -> RouteId {
        self.1@
    }

    pub(crate) fn new(Ghost(route): Ghost<RouteId>) -> (r: Self)
        ensures
            r.route() == route,
    {
        MainBoundedWriter(PhantomData, Ghost(route))
    }

    /// Pushes one item; `Full` when the queue is full (caller counts the drop).
    pub fn try_send(
        &self,
        _ctx: &UpdateCtx<'_>,
        mailbox: &mut BoundedQueue<T, N>,
        value: T,
    ) -> (r: SendOutcome)
        requires
            old(mailbox).wf(),
        ensures
            final(mailbox).wf(),
            if old(mailbox)@.len() < N {
                r is Accepted && final(mailbox)@ == old(mailbox)@.push(value)
            } else {
                r is Full && final(mailbox)@ == old(mailbox)@
            },
    {
        mailbox.try_send(value)
    }
}

/// Pops from the bounded queue inside a hook callback.
pub struct CallbackBoundedReader<T, const N: usize>(PhantomData<T>, Ghost<RouteId>);

impl<T: CallbackPayload, const N: usize> CallbackBoundedReader<T, N> {
    /// The route that this is an end of.
    pub closed spec fn route(&self) -> RouteId {
        self.1@
    }

    pub(crate) fn new(Ghost(route): Ghost<RouteId>) -> (r: Self)
        ensures
            r.route() == route,
    {
        CallbackBoundedReader(PhantomData, Ghost(route))
    }

    #[must_use]
    pub fn try_read(&self, _ctx: &CallbackCtx, mailbox: &mut BoundedQueue<T, N>) -> (r: Option<T>)
        requires
            old(mailbox).wf(),
        ensures
            final(mailbox).wf(),
            if old(mailbox)@.len() == 0 {
                r is None && final(mailbox)@ == old(mailbox)@
            } else {
                r == Some(old(mailbox)@[0]) && final(mailbox)@ == old(mailbox)@.skip(1)
            },
    {
        mailbox.try_read()
    }

    #[must_use]
    pub fn len(&self, _ctx: &CallbackCtx, mailbox: &BoundedQueue<T, N>) -> (r: usize)
        ensures
            r == mailbox@.len(),
    {
        mailbox.len()
    }

    #[must_use]
    pub fn is_empty(&self, _ctx: &CallbackCtx, mailbox: &BoundedQueue<T, N>) -> (r: bool)
        ensures
            r == (mailbox@.len() == 0),
    {
        mailbox.is_empty()
    }
}

/// Pushes into the bounded queue toward the main domain (hook callbacks).
pub struct CallbackBoundedWriter<T, const N: usize>(PhantomData<T>, Ghost<RouteId>);

impl<T: CallbackPayload, const N: usize> CallbackBoundedWriter<T, N> {
    /// The route that this is an end of.
    pub closed spec fn route(&self) -> RouteId {
        self.1@
    }

    pub(crate) fn new(Ghost(route): Ghost<RouteId>) -> (r: Self)
        ensures
            r.route() == route,
    {
        CallbackBoundedWriter(PhantomData, Ghost(route))
    }

    pub fn try_send(
        &self,
        _ctx: &CallbackCtx,
        mailbox: &mut BoundedQueue<T, N>,
        value: T,
    ) -> (r: SendOutcome)
        requires
            old(mailbox).wf(),
        ensures
            final(mailbox).wf(),
            if old(mailbox)@.len() < N {
                r is Accepted && final(mailbox)@ == old(mailbox)@.push(value)
            } else {
                r is Full && final(mailbox)@ == old(mailbox)@
            },
    {
        mailbox.try_send(value)
    }
}

/// Main-side end of a callback-to-main bounded route; drained into the
/// main-side receiver with the phase-entry watermark.
pub struct MainBoundedReader<T, const N: usize>(PhantomData<T>, Ghost<RouteId>);

impl<T: CallbackPayload, const N: usize> MainBoundedReader<T, N> {
    /// The route that this is an end of.
    pub closed spec fn route(&self) -> RouteId {
        self.1@
    }

    pub(crate) fn new(Ghost(route): Ghost<RouteId>) -> (r: Self)
        ensures
            r.route() == route,
    {
        MainBoundedReader(PhantomData, Ghost(route))
    }

    /// Items currently visible in the mailbox.
    #[must_use]
    pub fn depth(&self, mailbox: &BoundedQueue<T, N>) -> (r: usize)
        ensures
            r == mailbox@.len(),
    {
        mailbox.len()
    }

    /// Drains at most `watermark` items into the receiver, oldest first, and
    /// returns how many were delivered. Without a receiver nothing is drained.
    pub fn drain(
        &self,
        mailbox: &mut BoundedQueue<T, N>,
        receiver: &mut MainInbox<T>,
        watermark: usize,
    ) -> (r: usize)
        requires
            old(mailbox).wf(),
        ensures
            final(mailbox).wf(),
            match old(receiver)@ {
                None => {
                    &&& r == 0
                    &&& final(mailbox)@ == old(mailbox)@
                    &&& final(receiver)@ == old(receiver)@
                },
                Some(messages) => {
                    &&& r == if watermark < old(mailbox)@.len() {
                        watermark as int
                    } else {
                        old(mailbox)@.len() as int
                    }
                    &&& final(mailbox)@ == old(mailbox)@.skip(r as int)
                    &&& final(receiver)@ == Some(messages + old(mailbox)@.take(r as int))
                },
            },
    {
        if !receiver.is_registered() {
            return 0;
        }
        let ghost all = mailbox@;
        let ghost messages = receiver@->Some_0;
        let mut delivered: usize = 0;
        assert(all.skip(0) =~= all);
        assert(messages + all.take(0) =~= messages);
        while delivered < watermark
            invariant
                mailbox.wf(),
                delivered <= watermark,
                delivered <= all.len(),
                all == old(mailbox)@,
                old(receiver)@ == Some(messages),
                mailbox@ == all.skip(delivered as int),
                receiver@ == Some(messages + all.take(delivered as int)),
            decreases watermark - delivered,
        {
            match mailbox.try_read() {
                None => {
                    return delivered;
                },
                Some(value) => {
                    let _ = receiver.write(value);
                    proof {
                        let count = delivered as int;
                        assert(all.skip(count).skip(1) =~= all.skip(count + 1));
                        assert((messages + all.take(count)).push(all[count]) =~= messages
                            + all.take(count + 1));
                    }
                    delivered = delivered + 1;
                },
            }
        }
        delivered
    }
}

// ---------------------------------------------------------------------------
// shared_latest semantics
// ---------------------------------------------------------------------------

/// Writes an owned value toward the callback domain (Update systems only).
pub struct MainSharedWriter<T>(PhantomData<T>, Ghost<RouteId>);

impl<T> MainSharedWriter<T> {
    /// The route that this is an end of.
    pub closed spec fn route(&self) -> RouteId {
        self.1@
    }

    pub(crate) fn new(Ghost(route): Ghost<RouteId>) -> (r: Self)
        ensures
            r.route() == route,
    {
        MainSharedWriter(PhantomData, Ghost(route))
    }

    /// Replaces the slot contents; retry from the next Update system run when
    /// the slot is busy.
    pub fn try_send(
        &self,
        _ctx: &UpdateCtx<'_>,
        mailbox: &mut SharedSlot<T>,
        access: SlotAccess,
        value: T,
    ) -> (r: Result<SendOutcome, SlotBusy>)
        ensures
            access is Free ==> {
                &&& final(mailbox)@ == Some(Arc::new(value))
                &&& r is Ok && r->Ok_0 == if old(mailbox)@ is Some {
                    SendOutcome::Replaced
                } else {
                    SendOutcome::Accepted
                }
            },
            access !is Free ==> r is Err && final(mailbox)@ == old(mailbox)@,
    {
        mailbox.try_send(access, Arc::new(value))
    }
}

/// Reads the shared slot inside a hook callback (`Arc` clone only).
pub struct CallbackSharedReader<T>(PhantomData<T>, Ghost<RouteId>);

impl<T> CallbackSharedReader<T> {
    /// The route that this is an end of.
    pub closed spec fn route(&self) -> RouteId {
        self.1@
    }

    pub(crate) fn new(Ghost(route): Ghost<RouteId>) -> (r: Self)
        ensures
            r.route() == route,
    {
        CallbackSharedReader(PhantomData, Ghost(route))
    }

    #[must_use]
    pub fn try_read(&self, _ctx: &CallbackCtx, mailbox: &SharedSlot<T>, access: SlotAccess) -> (r:
        Option<Arc<T>>)
        ensures
            r == if access is Contended {
                None
            } else {
                mailbox@
            },
    {
        mailbox.try_read(access)
    }
}

/// Writes an owned value toward the main domain (hook callbacks).
pub struct CallbackSharedWriter<T>(PhantomData<T>, Ghost<RouteId>);

impl<T> CallbackSharedWriter<T> {
    /// The route that this is an end of.
    pub closed spec fn route(&self) -> RouteId {
        self.1@
    }

    pub(crate) fn new(Ghost(route): Ghost<RouteId>) -> (r: Self)
        ensures
            r.route() == route,
    {
        CallbackSharedWriter(PhantomData, Ghost(route))
    }

    /// Replaces the slot contents with an owned `Arc<T>`.
    pub fn try_send(
        &self,
        _ctx: &CallbackCtx,
        mailbox: &mut SharedSlot<T>,
        access: SlotAccess,
        value: Arc<T>,
    ) -> (r: Result<SendOutcome, SlotBusy>)
        ensures
            access is Free ==> {
                &&& final(mailbox)@ == Some(value)
                &&& r is Ok && r->Ok_0 == if old(mailbox)@ is Some {
                    SendOutcome::Replaced
                } else {
                    SendOutcome::Accepted
                }
            },
            access !is Free ==> r is Err && final(mailbox)@ == old(mailbox)@,
    {
        mailbox.try_send(access, value)
    }
}

/// Main-side end of a callback-to-main shared route; delivered as
/// [`SharedEnvelope`] messages.
pub struct MainSharedReader<T>(PhantomData<T>, Ghost<RouteId>);

impl<T> MainSharedReader<T> {
    /// The route that this is an end of.
    pub closed spec fn route(&self) -> RouteId {
        self.1@
    }

    pub(crate) fn new(Ghost(route): Ghost<RouteId>) -> (r: Self)
        ensures
            r.route() == route,
    {
        MainSharedReader(PhantomData, Ghost(route))
    }

    /// Items currently visible in the mailbox.
    #[must_use]
    pub fn depth(&self, mailbox: &SharedSlot<T>, access: SlotAccess) -> (r: usize)
        ensures
            r == if access !is Contended && mailbox@ is Some {
                1int
            } else {
                0
            },
    {
        match mailbox.try_read(access) {
            Some(_) => 1,
            None => 0,
        }
    }

    /// Drains at most `watermark` items into the receiver and returns how many
    /// were delivered. A value that finds no receiver is lost; a contended slot
    /// is left for the next drain.
    pub fn drain(
        &self,
        mailbox: &mut SharedSlot<T>,
        access: SlotAccess,
        receiver: &mut MainInbox<SharedEnvelope<T>>,
        watermark: usize,
    ) -> (r: usize)
        ensures
            if watermark == 0 || access is Contended {
                &&& r == 0
                &&& final(mailbox)@ == old(mailbox)@
                &&& final(receiver)@ == old(receiver)@
            } else {
                &&& final(mailbox)@ is None
                &&& match (old(mailbox)@, old(receiver)@) {
                    (Some(value), Some(messages)) => r == 1 && final(receiver)@ == Some(
                        messages.push(SharedEnvelope(value)),
                    ),
                    _ => r == 0 && final(receiver)@ == old(receiver)@,
                }
            },
    {
        if watermark == 0 {
            return 0;
        }
        match mailbox.take(access) {
            None => 0,
            Some(value) => if receiver.write(SharedEnvelope(value)) {
                1
            } else {
                0
            },
        }
    }
}

} // verus!
