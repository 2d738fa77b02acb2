//! Turning drained compact events into log records.
//!
//! Hot paths only ever submit compact events. A drain worker turns what is
//! queued into records, which are then handed to the log.

use vstd::prelude::*;

use crate::compact_codes;
use crate::event::{CallbackObservability, CompactEvent, CompactEventCode, CompactLevel};

verus! {

/// Apple Unified Logging subsystem.
pub const SUBSYSTEM: &'static str = "com.shinysongtools.runtime";

/// The one log category for all events. Domains remain distinguishable through
/// the domain of a record.
pub const CATEGORY: &'static str = "runtime";

/// Most events that one drain takes, so that a producer that keeps outrunning
/// the worker cannot turn it into an unbounded loop.
pub const DRAIN_LIMIT: usize = 256;

/// Domain and stable message of a compact code.
pub open spec fn category(code: u16) -> (Seq<char>, Seq<char>) {
    if code == compact_codes::SCHED_FRAME_ENTERED {
        ("scheduler"@, "scheduler frame entered"@)
    } else if code == compact_codes::SCHED_ORIGINAL_CALLED {
        ("hook"@, "original LateUpdate entered"@)
    } else if code == compact_codes::SCHED_ORIGINAL_RETURNED {
        ("hook"@, "original LateUpdate returned"@)
    } else if code == compact_codes::SCHED_FRAME_DONE {
        ("scheduler"@, "scheduler frame done"@)
    } else if code == compact_codes::SCHED_NO_PUBLISHED_CONTEXT {
        ("scheduler"@, "callback reached without published context"@)
    } else if code == compact_codes::SCHED_GLOBAL_FAILURE {
        ("scheduler"@, "scheduler global failure published"@)
    } else if code == compact_codes::SCHED_THREAD_MISMATCH {
        ("scheduler"@, "scheduler thread identity mismatch"@)
    } else if code == compact_codes::FFI_ENTRY_PANICKED {
        ("runtime"@, "entry panicked; startup aborted"@)
    } else {
        ("runtime"@, "unclassified compact event"@)
    }
}

/// Domain and stable message of a compact code. Unknown codes degrade to a
/// generic record: emitting must never fail.
#[must_use]
pub fn code_category(code: CompactEventCode) -> (r: (&'static str, &'static str))
    ensures
        (r.0@, r.1@) == category(code.0),
{
    let number: u16 = code.0;
    if number == compact_codes::SCHED_FRAME_ENTERED {
        ("scheduler", "scheduler frame entered")
    } else if number == compact_codes::SCHED_ORIGINAL_CALLED {
        ("hook", "original LateUpdate entered")
    } else if number == compact_codes::SCHED_ORIGINAL_RETURNED {
        ("hook", "original LateUpdate returned")
    } else if number == compact_codes::SCHED_FRAME_DONE {
        ("scheduler", "scheduler frame done")
    } else if number == compact_codes::SCHED_NO_PUBLISHED_CONTEXT {
        ("scheduler", "callback reached without published context")
    } else if number == compact_codes::SCHED_GLOBAL_FAILURE {
        ("scheduler", "scheduler global failure published")
    } else if number == compact_codes::SCHED_THREAD_MISMATCH {
        ("scheduler", "scheduler thread identity mismatch")
    } else if number == compact_codes::FFI_ENTRY_PANICKED {
        ("runtime", "entry panicked; startup aborted")
    } else {
        ("runtime", "unclassified compact event")
    }
}

/// A drained event as it goes to the log.
#[derive(Debug, Clone, Copy)]
pub struct CompactRecord {
    pub level: CompactLevel,
    pub code: u16,
    pub owner: u32,
    pub site: u32,
    pub arg0: u64,
    pub arg1: u64,
    pub domain: &'static str,
    pub message: &'static str,
}

/// `record` says what `event` says, with its domain and message.
pub open spec fn records(record: CompactRecord, event: CompactEvent) -> bool {
    &&& record.level == event.level
    &&& record.code == event.code.0
    &&& record.owner == event.owner.0
    &&& record.site == event.site.0
    &&& record.arg0 == event.arg0
    &&& record.arg1 == event.arg1
    &&& (record.domain@, record.message@) == category(event.code.0)
}

fn compact_record(event: &CompactEvent) -> (r: CompactRecord)
    ensures
        records(r, *event),
{
    let (domain, message) = code_category(event.code);
    CompactRecord {
        level: event.level,
        code: event.code.0,
        owner: event.owner.0,
        site: event.site.0,
        arg0: event.arg0,
        arg1: event.arg1,
        domain,
        message,
    }
}

/// Drains what is queued, up to the limit of one drain, oldest first.
#[must_use]
pub fn drain_available(queue: &mut CallbackObservability) -> (r: Vec<CompactRecord>)
    ensures
        r.len() == if DRAIN_LIMIT < old(queue).events().len() {
            DRAIN_LIMIT as nat
        } else {
            old(queue).events().len()
        },
        forall|i: int|
            0 <= i < r.len() ==> records(#[trigger] r[i], old(queue).events()[i]),
        final(queue).events() == old(queue).events().skip(r.len() as int),
        final(queue).capacity() == old(queue).capacity(),
        final(queue).lost() == old(queue).lost(),
{
    let events: Vec<CompactEvent> = queue.drain(DRAIN_LIMIT);
    let mut drained: Vec<CompactRecord> = Vec::new();
    let mut index: usize = 0;
    while index < events.len()
        invariant
            index <= events.len(),
            drained.len() == index,
            forall|i: int| 0 <= i < drained.len() ==> records(#[trigger] drained[i], events[i]),
        decreases events.len() - index,
    {
        drained.push(compact_record(&events[index]));
        index = index + 1;
    }
    drained
}

/// Process-lifetime observability root: when it was made, on a monotonic clock.
#[derive(Debug)]
pub struct ObservabilityRoot {
    created_at: u64,
}

impl ObservabilityRoot {
    pub closed spec fn made(&self) -> u64 {
        self.created_at
    }

    pub fn new(now: u64) -> (r: Self)
        ensures
            r.made() == now,
    {
        ObservabilityRoot { created_at: now }
    }

    /// Time since the root was made; none where the clock shows an earlier time.
    #[must_use]
    pub fn uptime(&self, now: u64) -> (r: u64)
        ensures
            r == if now >= self.made() {
                now - self.made()
            } else {
                0
            },
    {
        if now >= self.created_at {
            now - self.created_at
        } else {
            0
        }
    }
}

} // verus!
