//! Phase contexts: compile-time distinct Startup and Update phases.

use vstd::prelude::*;

use crate::error::PluginError;
use crate::main_thread::MainThreadToken;

verus! {

/// Return type of every phase system.
pub type SystemResult = Result<(), PluginError>;

/// Restore action registered by a plugin. `A` is what runs from any thread, `M`
/// what needs the main thread. Each action runs at most once during rollback,
/// in reverse registration order.
#[derive(Debug)]
pub enum RestoreAction<A, M> {
    /// Safe to run from the bootstrap worker or any thread.
    AnyThread(A),
    /// Requires the Unity main thread.
    MainThread(M),
}

/// Narrow registration surface given to Startup systems: restore actions only.
pub struct StartupRegistrar<A, M> {
    sink: Vec<RestoreAction<A, M>>,
}

impl<A, M> View for StartupRegistrar<A, M> {
    type V = Seq<RestoreAction<A, M>>;

    closed spec fn view(&self) -> Seq<RestoreAction<A, M>> {
        self.sink@
    }
}

impl<A, M> StartupRegistrar<A, M> {
    /// A registrar that appends to the actions in `sink`.
    pub fn new(sink: Vec<RestoreAction<A, M>>) -> (r: Self)
        ensures
            r@ == sink@,
    {
        StartupRegistrar { sink }
    }

    /// Registers an action that may run from any thread.
    pub fn register_restore_any_thread(&mut self, action: A)
        ensures
            final(self)@ == old(self)@.push(RestoreAction::AnyThread(action)),
    {
        self.sink.push(RestoreAction::AnyThread(action));
    }

    /// Registers an action that needs the main thread.
    pub fn register_restore_main_thread(&mut self, action: M)
        ensures
            final(self)@ == old(self)@.push(RestoreAction::MainThread(action)),
    {
        self.sink.push(RestoreAction::MainThread(action));
    }

    /// Hands the actions back.
    pub fn into_actions(self) -> (r: Vec<RestoreAction<A, M>>)
        ensures
            r@ == self@,
    {
        self.sink
    }

    /// Takes the action that rollback runs next: the one registered last.
    pub fn next_restore(&mut self) -> (r: Option<RestoreAction<A, M>>)
        ensures
            if old(self)@.len() == 0 {
                r is None && final(self)@ == old(self)@
            } else {
                r == Some(old(self)@.last()) && final(self)@ == old(self)@.drop_last()
            },
    {
        self.sink.pop()
    }
}

/// One resource insertion that waits for its Startup system to return.
pub struct ResourceInsert<K, I, R> {
    pub type_id: K,
    pub type_label: &'static str,
    pub insert: I,
    pub remove: R,
}

/// The conflict check of an insertion: a type that is already present, from
/// any owner, is never overwritten.
pub fn insertion_allowed(present: bool, type_label: &'static str) -> (r: Result<(), PluginError>)
    ensures
        r is Ok <==> !present,
        r is Err ==> r->Err_0 == PluginError::ResourceConflict(type_label),
{
    if present {
        Err(PluginError::ResourceConflict(type_label))
    } else {
        Ok(())
    }
}

/// Phase context of a Startup system (runs once, first outer LateUpdate).
pub struct StartupCtx<'a, A, M, K, I, R> {
    pub main: &'a MainThreadToken,
    pub reg: StartupRegistrar<A, M>,
    pub pending: Vec<ResourceInsert<K, I, R>>,
}

impl<'a, A, M, K, I, R> StartupCtx<'a, A, M, K, I, R> {
    /// Queues a resource insertion. It is applied, with its conflict check,
    /// right after this system returns.
    pub fn insert_resource(&mut self, insert: ResourceInsert<K, I, R>) -> (r: SystemResult)
        ensures
            r is Ok,
            final(self).pending@ == old(self).pending@.push(insert),
            final(self).main == old(self).main,
            final(self).reg == old(self).reg,
    {
        self.pending.push(insert);
        Ok(())
    }
}

/// Phase context of an Update system (runs every outer LateUpdate).
#[derive(Clone, Copy)]
pub struct UpdateCtx<'a> {
    pub main: &'a MainThreadToken,
}

} // verus!
