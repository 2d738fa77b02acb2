//! Callback-safe containers: the three mailbox semantics.
//!
//! Callback-side operations are bounded and never block an OS thread, never
//! allocate and never run arbitrary plugin code. Payloads for
//! [`LatestCell`] and [`BoundedQueue`] are [`CallbackPayload`] (`Copy`), so
//! overwriting or reading never runs a payload destructor. [`SharedSlot`]
//! carries owned structured data (`Arc<T>`).

use std::sync::Arc;

use vstd::prelude::*;

use crate::raw::{
    cell_load, cell_new, cell_swap, queue_is_empty, queue_len, queue_new, queue_pop, queue_push,
    RawCell, RawQueue,
};

verus! {

/// Payload bound for `latest` and `bounded` mailboxes.
pub trait CallbackPayload: Copy + Send + Sync + 'static {

}

impl<T: Copy + Send + Sync + 'static> CallbackPayload for T {

}

/// Outcome of a non-blocking send into a mailbox.
#[derive(Debug, Clone, Copy, PartialEq, Eq, Structural)]
pub enum SendOutcome {
    /// Stored into an empty slot or queue.
    Accepted,
    /// Replaced a previous value (`latest` and `shared` semantics).
    Replaced,
    /// Queue was full (`bounded` semantics only); the caller counts the drop.
    Full,
    /// Single-slot lock was contended (`shared` semantics only); the value
    /// was not stored and the caller may retry later.
    Busy,
}

impl SendOutcome {
    #[must_use]
    pub fn is_stored(self) -> (r: bool)
        ensures
            r == (self is Accepted || self is Replaced),
    {
        match self {
            SendOutcome::Accepted | SendOutcome::Replaced => true,
            _ => false,
        }
    }
}

/// Latest-value cell: writes overwrite, intermediate states may be lost.
#[verifier::reject_recursive_types(T)]
pub struct LatestCell<T> {
    cell: RawCell<Option<T>>,
}

impl<T> View for LatestCell<T> {
    type V = Option<T>;

    closed spec fn view(&self) -> Option<T> {
        self.cell.value()
    }
}

impl<T: CallbackPayload> LatestCell<T> {
    #[must_use]
    pub fn new() -> (r: Self)
        ensures
            r@ is None,
    {
        LatestCell { cell: cell_new(None) }
    }

    /// Overwrites with `value`. [`SendOutcome::Accepted`] when the cell was
    /// empty, [`SendOutcome::Replaced`] when a previous value was overwritten.
    pub fn try_send(&mut self, value: T) -> (r: SendOutcome)
        ensures
            final(self)@ == Some(value),
            r == if old(self)@ is Some {
                SendOutcome::Replaced
            } else {
                SendOutcome::Accepted
            },
    {
        match cell_swap(&mut self.cell, Some(value)) {
            Some(_) => SendOutcome::Replaced,
            None => SendOutcome::Accepted,
        }
    }

    /// Reads the current value, if any.
    #[must_use]
    pub fn try_read(&self) -> (r: Option<T>)
        ensures
            r == self@,
    {
        cell_load(&self.cell)
    }

    /// Takes the current value, leaving the cell empty.
    #[must_use]
    pub fn take(&mut self) -> (r: Option<T>)
        ensures
            r == old(self)@,
            final(self)@ is None,
    {
        cell_swap(&mut self.cell, None)
    }
}

impl<T: CallbackPayload> Default for LatestCell<T> {
    fn default() -> (r: Self)
        ensures
            r@ is None,
    {
        LatestCell::new()
    }
}

/// Bounded FIFO queue with order preservation.
///
/// `try_send` on a full queue returns [`SendOutcome::Full`] without blocking;
/// the caller accumulates the dropped count.
#[verifier::reject_recursive_types(T)]
pub struct BoundedQueue<T, const N: usize> {
    queue: RawQueue<T>,
}

impl<T, const N: usize> View for BoundedQueue<T, N> {
    type V = Seq<T>;

    closed spec fn view(&self) -> Seq<T> {
        self.queue.items()
    }
}

impl<T: CallbackPayload, const N: usize> BoundedQueue<T, N> {
    /// The queue holds at most `N` items, which is what it has room for.
    pub closed spec fn wf(&self) -> bool {
        self.queue.limit() == N && self.queue.items().len() <= N
    }

    #[must_use]
    pub fn new() -> (r: Self)
        requires
            0 < N < usize::MAX / 2,
        ensures
            r.wf(),
            r@ == Seq::<T>::empty(),
    {
        BoundedQueue { queue: queue_new(N) }
    }

    pub fn try_send(&mut self, value: T) -> (r: SendOutcome)
        requires
            old(self).wf(),
        ensures
            final(self).wf(),
            final(self)@.len() <= N,
            if old(self)@.len() < N {
                r is Accepted && final(self)@ == old(self)@.push(value)
            } else {
                r is Full && final(self)@ == old(self)@
            },
    {
        match queue_push(&mut self.queue, value) {
            Ok(()) => SendOutcome::Accepted,
            Err(_) => SendOutcome::Full,
        }
    }

    #[must_use]
    pub fn try_read(&mut self) -> (r: Option<T>)
        requires
            old(self).wf(),
        ensures
            final(self).wf(),
            if old(self)@.len() == 0 {
                r is None && final(self)@ == old(self)@
            } else {
                r == Some(old(self)@[0]) && final(self)@ == old(self)@.skip(1)
            },
    {
        queue_pop(&mut self.queue)
    }

    /// Number of items currently buffered.
    #[must_use]
    pub fn len(&self) -> (r: usize)
        ensures
            r == self@.len(),
    {
        queue_len(&self.queue)
    }

    #[must_use]
    pub fn is_empty(&self) -> (r: bool)
        ensures
            r == (self@.len() == 0),
    {
        queue_is_empty(&self.queue)
    }
}

/// How the attempt to lock a shared slot without blocking ended.
#[derive(Debug, Clone, Copy, PartialEq, Eq, Structural)]
pub enum SlotAccess {
    /// The lock was taken.
    Free,
    /// Somebody else holds the lock.
    Contended,
    /// The lock was taken, but a holder before had panicked; the slot still
    /// contains valid data.
    Poisoned,
}

/// Single slot carrying owned structured data (`Arc<T>`).
///
/// `try_send` replaces the slot; `try_read` clones the `Arc`. The lock policy
/// is `try_lock` first: a contended slot reports [`SlotBusy`] instead of
/// blocking the caller. Every operation is told how its attempt to lock
/// the slot ended.
#[verifier::reject_recursive_types(T)]
pub struct SharedSlot<T> {
    slot: Option<Arc<T>>,
}

/// Error returned when the shared slot lock was contended.
#[derive(Debug, Clone, Copy, PartialEq, Eq, Structural)]
pub struct SlotBusy;

impl<T> View for SharedSlot<T> {
    type V = Option<Arc<T>>;

    closed spec fn view(&self) -> Option<Arc<T>> {
        self.slot
    }
}

impl<T> SharedSlot<T> {
    #[must_use]
    pub fn new() -> (r: Self)
        ensures
            r@ is None,
    {
        SharedSlot { slot: None }
    }

    /// Replaces the slot contents with `value`. A slot that is not simply free
    /// is left as it is.
    pub fn try_send(&mut self, access: SlotAccess, value: Arc<T>) -> (r: Result<
        SendOutcome,
        SlotBusy,
    >)
        ensures
            access is Free ==> {
                &&& final(self)@ == Some(value)
                &&& r is Ok && r->Ok_0 == if old(self)@ is Some {
                    SendOutcome::Replaced
                } else {
                    SendOutcome::Accepted
                }
            },
            access !is Free ==> r is Err && final(self)@ == old(self)@,
    {
        match access {
            SlotAccess::Free => {
                let outcome = if self.slot.is_some() {
                    SendOutcome::Replaced
                } else {
                    SendOutcome::Accepted
                };
                self.slot = Some(value);
                Ok(outcome)
            },
            _ => Err(SlotBusy),
        }
    }

    /// Clones the current `Arc` out of the slot, if any.
    #[must_use]
    pub fn try_read(&self, access: SlotAccess) -> (r: Option<Arc<T>>)
        ensures
            r == if access is Contended {
                None
            } else {
                self@
            },
    {
        match access {
            SlotAccess::Contended => None,
            _ => match &self.slot {
                Some(value) => Some(value.clone()),
                None => None,
            },
        }
    }

    /// Takes the current value out of the slot, if any.
    #[must_use]
    pub fn take(&mut self, access: SlotAccess) -> (r: Option<Arc<T>>)
        ensures
            access is Contended ==> r is None && final(self)@ == old(self)@,
            access !is Contended ==> r == old(self)@ && final(self)@ is None,
    {
        match access {
            SlotAccess::Contended => None,
            _ => self.slot.take(),
        }
    }

    /// Whether the slot currently holds a value. A slot that cannot simply be
    /// locked reports `true`: callers that must not overwrite treat busy as
    /// occupied.
    #[must_use]
    pub fn is_set(&self, access: SlotAccess) -> (r: bool)
        ensures
            r == (access !is Free || self@ is Some),
    {
        match access {
            SlotAccess::Free => self.slot.is_some(),
            _ => true,
        }
    }
}

impl<T> Default for SharedSlot<T> {
    fn default() -> (r: Self)
        ensures
            r@ is None,
    {
        SharedSlot::new()
    }
}

/// The items that `sent` leaves in a queue of `limit` items that holds
/// `held`: the ones that find room, in the order in which they came.
pub open spec fn queued<T>(held: Seq<T>, sent: Seq<T>, limit: nat) -> Seq<T>
    decreases sent.len(),
{
    if sent.len() == 0 {
        held
    } else {
        let before = queued(held, sent.drop_last(), limit);
        if before.len() < limit {
            before.push(sent.last())
        } else {
            before
        }
    }
}

/// A bounded queue keeps what it holds and, behind it, the longest prefix of
/// what was sent that it has room for: it never reorders and only drops the
/// newest.
pub proof fn queue_keeps_oldest<T>(held: Seq<T>, sent: Seq<T>, limit: nat)
    requires
        held.len() <= limit,
    ensures
        queued(held, sent, limit) == held + sent.take(
            if held.len() + sent.len() <= limit {
                sent.len() as int
            } else {
                limit - held.len()
            },
        ),
    decreases sent.len(),
{
    if sent.len() > 0 {
        queue_keeps_oldest(held, sent.drop_last(), limit);
        let before = queued(held, sent.drop_last(), limit);
        if held.len() + sent.len() <= limit {
            assert(before.push(sent.last()) =~= held + sent.take(sent.len() as int));
        } else {
            assert(before =~= held + sent.take(limit - held.len()));
        }
    } else {
        assert(held =~= held + sent.take(0));
    }
}

} // verus!
