//! Compact events: the callback and scheduler hot-path observability channel.
//!
//! Hot-path code submits fixed-size [`CompactEvent`] values into a bounded
//! queue through [`CallbackObservability`]. A drain worker converts them into
//! normal log events. A full queue only bumps the dropped counter; emitting
//! never changes original behaviour and never triggers retirement or failure.

use vstd::prelude::*;

use crate::raw::{queue_new, queue_pop, queue_push, RawQueue};

verus! {

/// Fixed capacity of the process-level compact event queue.
pub const CALLBACK_EVENT_QUEUE_CAPACITY: usize = 4096;

/// Stable severity for compact events.
#[derive(Debug, Clone, Copy, PartialEq, Eq, Structural)]
pub enum CompactLevel {
    Info,
    Warn,
    Error,
}

impl CompactLevel {
    /// Stable number of this severity.
    pub open spec fn number(self) -> u8 {
        match self {
            CompactLevel::Info => 0,
            CompactLevel::Warn => 1,
            CompactLevel::Error => 2,
        }
    }

    /// Stable number of this severity.
    pub fn as_u8(self) -> (r: u8)
        ensures
            r == self.number(),
    {
        match self {
            CompactLevel::Info => 0,
            CompactLevel::Warn => 1,
            CompactLevel::Error => 2,
        }
    }
}

/// Stable event code; plugin callbacks never register custom descriptors.
#[derive(Debug, Clone, Copy, PartialEq, Eq, Structural)]
pub struct CompactEventCode(pub u16);

/// Identity of the emitting owner (plugin id or a runtime infrastructure id).
#[derive(Debug, Clone, Copy, PartialEq, Eq, Structural)]
pub struct CompactOwnerId(pub u32);

/// Identity of the emission site (a compact per-site index).
#[derive(Debug, Clone, Copy, PartialEq, Eq, Structural)]
pub struct CompactSiteId(pub u32);

/// Fixed-size, `Copy`, destructor-free event record.
#[derive(Debug, Clone, Copy)]
pub struct CompactEvent {
    pub code: CompactEventCode,
    pub level: CompactLevel,
    pub owner: CompactOwnerId,
    pub site: CompactSiteId,
    pub arg0: u64,
    pub arg1: u64,
}

impl CompactEvent {
    #[must_use]
    pub fn new(code: CompactEventCode, level: CompactLevel) -> (r: Self)
        ensures
            r == (CompactEvent {
                code,
                level,
                owner: CompactOwnerId(0),
                site: CompactSiteId(0),
                arg0: 0,
                arg1: 0,
            }),
    {
        CompactEvent {
            code,
            level,
            owner: CompactOwnerId(0),
            site: CompactSiteId(0),
            arg0: 0,
            arg1: 0,
        }
    }

    #[must_use]
    pub fn owner(self, owner: CompactOwnerId) -> (r: Self)
        ensures
            r == (CompactEvent { owner, ..self }),
    {
        CompactEvent { owner, ..self }
    }

    #[must_use]
    pub fn site(self, site: CompactSiteId) -> (r: Self)
        ensures
            r == (CompactEvent { site, ..self }),
    {
        CompactEvent { site, ..self }
    }

    #[must_use]
    pub fn args(self, arg0: u64, arg1: u64) -> (r: Self)
        ensures
            r == (CompactEvent { arg0, arg1, ..self }),
    {
        CompactEvent { arg0, arg1, ..self }
    }
}

/// Producer side for callback and scheduler hot paths: the event queue and
/// its dropped counter.
///
/// This is infrastructure, not a plugin message route: it does not read any
/// gate, keeps recording after a plugin retires, and rejects dynamic strings
/// or arbitrary plugin payloads by construction.
pub struct CallbackObservability {
    queue: RawQueue<CompactEvent>,
    dropped: u64,
}

impl CallbackObservability {
    /// Events waiting to be drained, oldest first.
    pub closed spec fn events(&self) -> Seq<CompactEvent> {
        self.queue.items()
    }

    /// How many events can wait.
    pub closed spec fn capacity(&self) -> nat {
        self.queue.limit()
    }

    /// Events dropped since creation.
    pub closed spec fn lost(&self) -> u64 {
        self.dropped
    }

    /// An empty queue of the process-level capacity.
    #[must_use]
    pub fn new() -> (r: Self)
        ensures
            r.events() == Seq::<CompactEvent>::empty(),
            r.capacity() == CALLBACK_EVENT_QUEUE_CAPACITY,
            r.lost() == 0,
    {
        CallbackObservability::with_capacity(CALLBACK_EVENT_QUEUE_CAPACITY)
    }

    #[must_use]
    pub fn with_capacity(capacity: usize) -> (r: Self)
        requires
            0 < capacity < usize::MAX / 2,
        ensures
            r.events() == Seq::<CompactEvent>::empty(),
            r.capacity() == capacity,
            r.lost() == 0,
    {
        CallbackObservability { queue: queue_new(capacity), dropped: 0 }
    }

    /// Submits one event. `false` means the queue was full and the event was
    /// counted as dropped.
    pub fn try_emit(&mut self, event: CompactEvent) -> (r: bool)
        ensures
            final(self).capacity() == old(self).capacity(),
            r == (old(self).events().len() < old(self).capacity()),
            r ==> final(self).events() == old(self).events().push(event) && final(self).lost()
                == old(self).lost(),
            !r ==> final(self).events() == old(self).events() && final(self).lost() == (old(
                self).lost() + 1) % 0x1_0000_0000_0000_0000,
    {
        match queue_push(&mut self.queue, event) {
            Ok(()) => true,
            Err(_) => {
                self.dropped = self.dropped.wrapping_add(1);
                false
            },
        }
    }

    /// Total dropped count since creation (diagnostics only).
    #[must_use]
    pub fn dropped(&self) -> (r: u64)
        ensures
            r == self.lost(),
    {
        self.dropped
    }

    /// Drains up to `max` events, oldest first.
    pub fn drain(&mut self, max: usize) -> (r: Vec<CompactEvent>)
        ensures
            final(self).capacity() == old(self).capacity(),
            final(self).lost() == old(self).lost(),
            r.len() == if max < old(self).events().len() {
                max as nat
            } else {
                old(self).events().len()
            },
            r@ == old(self).events().take(r.len() as int),
            final(self).events() == old(self).events().skip(r.len() as int),
    {
        let mut events: Vec<CompactEvent> = Vec::new();
        let ghost before = self.events();
        assert(before.take(0) =~= Seq::<CompactEvent>::empty());
        assert(before.skip(0) =~= before);
        while events.len() < max
            invariant
                self.capacity() == old(self).capacity(),
                self.lost() == old(self).lost(),
                before == old(self).events(),
                events.len() <= max,
                events.len() <= before.len(),
                events@ == before.take(events.len() as int),
                self.events() == before.skip(events.len() as int),
            decreases max - events.len(),
        {
            match queue_pop(&mut self.queue) {
                Some(event) => {
                    let ghost taken = events.len() as int;
                    events.push(event);
                    assert(events@ =~= before.take(taken + 1));
                    assert(self.events() =~= before.skip(taken + 1));
                },
                None => {
                    return events;
                },
            }
        }
        events
    }
}

impl Default for CallbackObservability {
    fn default() -> (r: Self)
        ensures
            r.events() == Seq::<CompactEvent>::empty(),
            r.capacity() == CALLBACK_EVENT_QUEUE_CAPACITY,
            r.lost() == 0,
    {
        CallbackObservability::new()
    }
}

} // verus!
