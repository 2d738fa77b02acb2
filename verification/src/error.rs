//! The single error chain visible to plugin authors.
//!
//! Plugin code only ever sees [`PluginError`], [`HookError`],
//! [`Il2CppError`] and [`RestoreError`]. Concrete failure context travels
//! through observability events, never through persistent error state.

use vstd::prelude::*;

verus! {

/// Top-level error returned by plugin `build`, phase systems and facade
/// methods.
#[derive(Debug, PartialEq, Eq)]
pub enum PluginError {
    ResourceConflict(&'static str),
    MissingDependency(&'static str),
    Hook(HookError),
    Il2Cpp(Il2CppError),
    /// An I/O failure, by its description.
    Io(String),
    Message(&'static str),
}

/// Hook installation and slot ownership failures. Concrete addresses are
/// deliberately not exposed here.
#[derive(Debug, PartialEq, Eq)]
pub enum HookError {
    TargetUnavailable,
    SignatureMismatch,
    SiteAlreadyRegistered,
    SlotConflict,
    InstallationFailed,
    OwnershipDrift,
    SlotMalformed,
    EntryPatchUnsupported(&'static str),
}

/// Failures of a single restore action. This is the return value of one
/// rollback step, not a persistent state.
#[derive(Debug, PartialEq, Eq)]
pub enum RestoreError {
    OwnershipLost,
    Failed,
}

/// IL2CPP platform errors surfaced by the backend abstraction.
#[derive(Debug, PartialEq, Eq)]
pub enum Il2CppError {
    ImageNotFound,
    ImageIdentityMismatch,
    ExportMissing(&'static str),
    ReadinessSymbolMissing(&'static str),
    ReadinessDeadlineExceeded,
    ClassNotFound(String),
    DomainUnavailable,
    AttachFailed,
    IdentityMismatch,
    MethodResolutionFailed(&'static str),
    NotReady,
}

fn prefixed(prefix: &str, detail: &str) -> (r: String)
    ensures
        r@ == prefix@ + detail@,
{
    prefix.to_owned().concat(detail)
}

impl HookError {
    /// The text of this error.
    pub open spec fn text(self) -> Seq<char> {
        match self {
            HookError::TargetUnavailable => "hook target unavailable"@,
            HookError::SignatureMismatch => "hook target signature mismatch"@,
            HookError::SiteAlreadyRegistered => "hook site already registered"@,
            HookError::SlotConflict =>
                "method pointer slot conflict: slot is owned by another party"@,
            HookError::InstallationFailed =>
                "hook installation succeeded but readback did not confirm the replacement"@,
            HookError::OwnershipDrift => "method pointer slot ownership drift detected"@,
            HookError::SlotMalformed =>
                "method pointer slot is malformed (unreadable, null, or misaligned)"@,
            HookError::EntryPatchUnsupported(detail) =>
                "entry patch unsupported at this site: "@ + detail@,
        }
    }

    /// The text of this error.
    pub fn message(&self) -> (r: String)
        ensures
            r@ == self.text(),
    {
        match self {
            HookError::TargetUnavailable => "hook target unavailable".to_owned(),
            HookError::SignatureMismatch => "hook target signature mismatch".to_owned(),
            HookError::SiteAlreadyRegistered => "hook site already registered".to_owned(),
            HookError::SlotConflict => "method pointer slot conflict: slot is owned by another party".to_owned(),
            HookError::InstallationFailed => "hook installation succeeded but readback did not confirm the replacement".to_owned(),
            HookError::OwnershipDrift => "method pointer slot ownership drift detected".to_owned(),
            HookError::SlotMalformed => "method pointer slot is malformed (unreadable, null, or misaligned)".to_owned(),
            HookError::EntryPatchUnsupported(detail) => prefixed(
                "entry patch unsupported at this site: ",
                detail,
            ),
        }
    }
}

impl RestoreError {
    /// The text of this error.
    pub open spec fn text(self) -> Seq<char> {
        match self {
            RestoreError::OwnershipLost => "ownership of the restored state was lost"@,
            RestoreError::Failed => "restore action failed"@,
        }
    }

    /// The text of this error.
    pub fn message(&self) -> (r: String)
        ensures
            r@ == self.text(),
    {
        match self {
            RestoreError::OwnershipLost => "ownership of the restored state was lost".to_owned(),
            RestoreError::Failed => "restore action failed".to_owned(),
        }
    }
}

impl Il2CppError {
    /// The text of this error.
    pub open spec fn text(self) -> Seq<char> {
        match self {
            Il2CppError::ImageNotFound =>
                "UnityFramework image not found before the readiness deadline"@,
            Il2CppError::ImageIdentityMismatch => "UnityFramework image identity mismatch"@,
            Il2CppError::ExportMissing(name) => "required IL2CPP export missing: "@ + name@,
            Il2CppError::ReadinessSymbolMissing(name) =>
                "required bootstrap readiness symbol missing: "@ + name@,
            Il2CppError::ReadinessDeadlineExceeded => "bootstrap readiness deadline exceeded"@,
            Il2CppError::ClassNotFound(name) => "il2cpp class not found: "@ + name@,
            Il2CppError::DomainUnavailable =>
                "il2cpp_domain_get returned null; one-shot bootstrap terminated"@,
            Il2CppError::AttachFailed => "thread attach to the IL2CPP domain failed"@,
            Il2CppError::IdentityMismatch => "IL2CPP runtime/layout identity mismatch"@,
            Il2CppError::MethodResolutionFailed(detail) =>
                "IL2CPP method resolution failed: "@ + detail@,
            Il2CppError::NotReady => "IL2CPP API used before readiness"@,
        }
    }

    /// The text of this error.
    pub fn message(&self) -> (r: String)
        ensures
            r@ == self.text(),
    {
        match self {
            Il2CppError::ImageNotFound => "UnityFramework image not found before the readiness deadline".to_owned(),
            Il2CppError::ImageIdentityMismatch => "UnityFramework image identity mismatch".to_owned(),
            Il2CppError::ExportMissing(name) => prefixed("required IL2CPP export missing: ", name),
            Il2CppError::ReadinessSymbolMissing(name) => prefixed(
                "required bootstrap readiness symbol missing: ",
                name,
            ),
            Il2CppError::ReadinessDeadlineExceeded => "bootstrap readiness deadline exceeded".to_owned(),
            Il2CppError::ClassNotFound(name) => prefixed("il2cpp class not found: ", name.as_str()),
            Il2CppError::DomainUnavailable => "il2cpp_domain_get returned null; one-shot bootstrap terminated".to_owned(),
            Il2CppError::AttachFailed => "thread attach to the IL2CPP domain failed".to_owned(),
            Il2CppError::IdentityMismatch => "IL2CPP runtime/layout identity mismatch".to_owned(),
            Il2CppError::MethodResolutionFailed(detail) => prefixed(
                "IL2CPP method resolution failed: ",
                detail,
            ),
            Il2CppError::NotReady => "IL2CPP API used before readiness".to_owned(),
        }
    }
}

impl PluginError {
    /// The text of this error.
    pub open spec fn text(self) -> Seq<char> {
        match self {
            PluginError::ResourceConflict(detail) => "resource conflict: "@ + detail@,
            PluginError::MissingDependency(detail) => "missing dependency: "@ + detail@,
            PluginError::Hook(error) => "hook: "@ + error.text(),
            PluginError::Il2Cpp(error) => "il2cpp: "@ + error.text(),
            PluginError::Io(detail) => "io: "@ + detail@,
            PluginError::Message(detail) => detail@,
        }
    }

    /// The text of this error.
    pub fn message(&self) -> (r: String)
        ensures
            r@ == self.text(),
    {
        match self {
            PluginError::ResourceConflict(detail) => prefixed("resource conflict: ", detail),
            PluginError::MissingDependency(detail) => prefixed("missing dependency: ", detail),
            PluginError::Hook(error) => prefixed("hook: ", error.message().as_str()),
            PluginError::Il2Cpp(error) => prefixed("il2cpp: ", error.message().as_str()),
            PluginError::Io(detail) => prefixed("io: ", detail.as_str()),
            PluginError::Message(detail) => (*detail).to_owned(),
        }
    }
}

} // verus!
