//! IL2CPP backend abstraction.
//!
//! Everything the runtime and the hook layer need of the platform is expressed
//! through [`Il2CppApi`] and [`MethodResolver`], so that fixtures can drive
//! the same protocol with mocks.

use vstd::prelude::*;

use crate::error::{HookError, Il2CppError};
use crate::method_slot::{MethodRef, SlotEvent, SlotMemory, TargetId, TargetView};

verus! {

/// Opaque handle to the exact UnityFramework image.
#[derive(Debug, Clone, Copy, PartialEq, Eq, Structural)]
pub struct ImageHandle(pub usize);

/// Identity facts of the resolved UnityFramework image.
#[derive(Debug, Clone, PartialEq, Eq)]
pub struct ImageIdentity {
    pub name: String,
    pub handle: ImageHandle,
}

/// Opaque domain pointer returned by `il2cpp_domain_get`.
#[derive(Debug, Clone, Copy, PartialEq, Eq, Structural)]
pub struct DomainHandle(pub usize);

/// Runtime and layout identity facts.
#[derive(Debug, Clone, PartialEq, Eq)]
pub struct RuntimeIdentity {
    pub unity_version: String,
    pub il2cpp_variant: String,
}

/// Guard for a thread attachment established by this process. Only the
/// attachment this guard created is ever detached; attachments made by
/// external code are never touched.
#[derive(Debug)]
pub struct AttachGuard {
    armed: bool,
}

impl AttachGuard {
    /// Whether releasing the guard detaches the thread.
    pub closed spec fn is_armed(&self) -> bool {
        self.armed
    }

    /// A guard over an attachment: `owned` where this process made it, and not
    /// where it was found and adopted.
    pub fn new(owned: bool) -> (r: Self)
        ensures
            r.is_armed() == owned,
    {
        AttachGuard { armed: owned }
    }

    /// Gives up the guard without detaching (used when the attachment is
    /// intentionally handed over to a longer-lived owner).
    pub fn leak(self) -> (r: bool)
        ensures
            !r,
    {
        false
    }

    /// Gives up the guard; `true` means that the thread is to be detached now.
    pub fn release(self) -> (r: bool)
        ensures
            r == self.is_armed(),
    {
        self.armed
    }
}

/// One call of the platform interface and its result.
pub enum PlatformEvent {
    Image(Result<ImageIdentity, Il2CppError>),
    Exports(Result<(), Il2CppError>),
    Domain(Result<DomainHandle, Il2CppError>),
    Attach(Result<AttachGuard, Il2CppError>),
    Hydrate(Result<(), Il2CppError>),
    Identity(Result<RuntimeIdentity, Il2CppError>),
}

/// The IL2CPP operations the runtime bootstrap and scheduler need.
///
/// Implementations must uphold the readiness ladder: operations beyond the
/// reached rung return [`Il2CppError::NotReady`].
pub trait Il2CppApi: Sized {
    /// The calls that were made and what they answered, in order. An
    /// implementation that is not verified leaves it unsaid.
    closed spec fn log(&self) -> Seq<PlatformEvent> {
        vstd::pervasive::arbitrary()
    }

    /// Resolves the unique UnityFramework image (the caller may poll).
    fn unity_framework_image(&mut self) -> (r: Result<ImageIdentity, Il2CppError>)
        ensures
            final(self).log() == old(self).log().push(PlatformEvent::Image(r)),
    ;

    /// Loads all required exports from the exact handle (single shot).
    fn load_exports(&mut self) -> (r: Result<(), Il2CppError>)
        ensures
            final(self).log() == old(self).log().push(PlatformEvent::Exports(r)),
    ;

    /// Fetches the IL2CPP domain (exactly once per process).
    fn domain_get(&mut self) -> (r: Result<DomainHandle, Il2CppError>)
        ensures
            final(self).log() == old(self).log().push(PlatformEvent::Domain(r)),
    ;

    /// Attaches the current thread; the guard detaches only this attachment.
    fn attach_current_thread(&mut self) -> (r: Result<AttachGuard, Il2CppError>)
        ensures
            final(self).log() == old(self).log().push(PlatformEvent::Attach(r)),
    ;

    /// Hydrates the metadata cache for target resolution (after attach).
    fn hydrate_metadata(&mut self) -> (r: Result<(), Il2CppError>)
        ensures
            final(self).log() == old(self).log().push(PlatformEvent::Hydrate(r)),
    ;

    /// Validates the supported runtime and layout identity (single shot).
    fn runtime_identity(&mut self) -> (r: Result<RuntimeIdentity, Il2CppError>)
        ensures
            final(self).log() == old(self).log().push(PlatformEvent::Identity(r)),
    ;
}

/// One question to a resolver and its answer.
#[verifier::reject_recursive_types(M)]
pub enum ResolverEvent<M> {
    /// What a target was resolved to.
    Method(TargetView, Result<MethodRef, HookError>),
    /// The access that was handed out to the slot of a method.
    Slot(MethodRef, M),
}

/// Method resolution for hook targets, exposed to the hook typestate layer.
pub trait MethodResolver: Sized {
    type Memory: SlotMemory;

    /// What was asked and what it answered, in order. An implementation that is
    /// not verified leaves it unsaid.
    closed spec fn log(&self) -> Seq<ResolverEvent<Self::Memory>> {
        vstd::pervasive::arbitrary()
    }

    /// The logs of an access to a slot that may end in an exchange.
    closed spec fn permitted(&self) -> Set<Seq<SlotEvent>> {
        vstd::pervasive::arbitrary()
    }

    fn resolve(&mut self, target: &TargetId) -> (r: Result<MethodRef, HookError>)
        ensures
            final(self).log() == old(self).log().push(ResolverEvent::Method(target@, r)),
            final(self).permitted() == old(self).permitted(),
    ;

    /// A new access to the slot of `method`, through which nothing was asked
    /// yet.
    fn slot_memory(&mut self, method: &MethodRef) -> (memory: Self::Memory)
        ensures
            final(self).log() == old(self).log().push(ResolverEvent::Slot(*method, memory)),
            final(self).permitted() == old(self).permitted(),
            memory.log() == Seq::<SlotEvent>::empty(),
            memory.permitted() == old(self).permitted(),
    ;
}

/// `after` is the resolver `before` after it was asked for one target, and
/// `reply` what it answered.
pub open spec fn resolved<V: MethodResolver>(
    before: V,
    after: V,
    target: TargetView,
    reply: Result<MethodRef, HookError>,
) -> bool {
    &&& after.log() == before.log().push(ResolverEvent::Method(target, reply))
    &&& after.permitted() == before.permitted()
}

/// Combined capability handed to hook installation.
pub struct ResolvedMethod<M: SlotMemory> {
    pub method: MethodRef,
    pub slot_memory: M,
}

impl<M: SlotMemory> ResolvedMethod<M> {
    pub fn new(method: MethodRef, slot_memory: M) -> (r: Self)
        ensures
            r.method == method,
            r.slot_memory == slot_memory,
    {
        ResolvedMethod { method, slot_memory }
    }
}

} // verus!
