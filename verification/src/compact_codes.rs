//! Stable compact event codes.

use vstd::prelude::*;

verus! {

pub const SCHED_FRAME_ENTERED: u16 = 1;

pub const SCHED_ORIGINAL_CALLED: u16 = 2;

pub const SCHED_ORIGINAL_RETURNED: u16 = 3;

pub const SCHED_NO_PUBLISHED_CONTEXT: u16 = 4;

pub const SCHED_GLOBAL_FAILURE: u16 = 5;

pub const SCHED_THREAD_MISMATCH: u16 = 6;

pub const FFI_ENTRY_PANICKED: u16 = 7;

pub const SCHED_FRAME_DONE: u16 = 8;

} // verus!
