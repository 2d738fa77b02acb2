use shiny_song_tools::error::{HookError, Il2CppError, PluginError, RestoreError};

#[test]
fn every_error_has_its_text() {
    let hooks = [
        (HookError::TargetUnavailable, "hook target unavailable"),
        (HookError::SignatureMismatch, "hook target signature mismatch"),
        (HookError::SiteAlreadyRegistered, "hook site already registered"),
        (
            HookError::SlotConflict,
            "method pointer slot conflict: slot is owned by another party",
        ),
        (
            HookError::InstallationFailed,
            "hook installation succeeded but readback did not confirm the replacement",
        ),
        (
            HookError::OwnershipDrift,
            "method pointer slot ownership drift detected",
        ),
        (
            HookError::SlotMalformed,
            "method pointer slot is malformed (unreadable, null, or misaligned)",
        ),
        (
            HookError::EntryPatchUnsupported("adr"),
            "entry patch unsupported at this site: adr",
        ),
    ];
    for (error, text) in hooks {
        assert_eq!(error.message(), text);
    }
    let platform = [
        (
            Il2CppError::ImageNotFound,
            "UnityFramework image not found before the readiness deadline",
        ),
        (
            Il2CppError::ImageIdentityMismatch,
            "UnityFramework image identity mismatch",
        ),
        (
            Il2CppError::ExportMissing("il2cpp_domain_get"),
            "required IL2CPP export missing: il2cpp_domain_get",
        ),
        (
            Il2CppError::ReadinessSymbolMissing("S"),
            "required bootstrap readiness symbol missing: S",
        ),
        (
            Il2CppError::ReadinessDeadlineExceeded,
            "bootstrap readiness deadline exceeded",
        ),
        (
            Il2CppError::ClassNotFound("A::B".to_owned()),
            "il2cpp class not found: A::B",
        ),
        (
            Il2CppError::DomainUnavailable,
            "il2cpp_domain_get returned null; one-shot bootstrap terminated",
        ),
        (
            Il2CppError::AttachFailed,
            "thread attach to the IL2CPP domain failed",
        ),
        (
            Il2CppError::IdentityMismatch,
            "IL2CPP runtime/layout identity mismatch",
        ),
        (
            Il2CppError::MethodResolutionFailed("m"),
            "IL2CPP method resolution failed: m",
        ),
        (Il2CppError::NotReady, "IL2CPP API used before readiness"),
    ];
    for (error, text) in platform {
        assert_eq!(error.message(), text);
    }
    assert_eq!(
        PluginError::Hook(HookError::SlotConflict).message(),
        "hook: method pointer slot conflict: slot is owned by another party"
    );
    assert_eq!(
        PluginError::Il2Cpp(Il2CppError::NotReady).message(),
        "il2cpp: IL2CPP API used before readiness"
    );
    assert_eq!(
        PluginError::ResourceConflict("State").message(),
        "resource conflict: State"
    );
    assert_eq!(
        PluginError::MissingDependency("State").message(),
        "missing dependency: State"
    );
    assert_eq!(PluginError::Io("gone".to_owned()).message(), "io: gone");
    assert_eq!(PluginError::Message("boom").message(), "boom");
    assert_eq!(
        RestoreError::OwnershipLost.message(),
        "ownership of the restored state was lost"
    );
    assert_eq!(RestoreError::Failed.message(), "restore action failed");
}
