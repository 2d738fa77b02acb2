//! The main-thread capability token.
//!
//! A [`MainThreadToken`] proves that the caller has verified that the current
//! thread is the process main thread. It is neither `Send` nor `Sync`, and
//! not `Clone`, so it cannot be cached or carried away. The runtime makes one
//! token per scheduler frame and only passes short borrows into phase
//! contexts.

use core::marker::PhantomData;
use std::rc::Rc;

use vstd::prelude::*;

verus! {

/// Capability for executing Unity main-thread operations.
pub struct MainThreadToken {
    not_send_sync: PhantomData<Rc<()>>,
}

impl MainThreadToken {
    /// A token for the current thread, where the platform predicate (the
    /// result of `pthread_main_np` in the same call frame) says that it is
    /// the main thread.
    #[must_use]
    pub fn assume_main_thread(predicate: i32) -> (r: Option<Self>)
        ensures
            r is Some <==> predicate != 0,
    {
        if predicate != 0 {
            Some(MainThreadToken { not_send_sync: PhantomData })
        } else {
            None
        }
    }
}

} // verus!
