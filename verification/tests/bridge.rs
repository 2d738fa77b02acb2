use shiny_song_tools::backend::{AttachGuard, DomainHandle, ImageHandle};
use shiny_song_tools::bridge::{
    enumerate_unity_framework, exact_symbol, exports_result, hydrate_result,
    read_il2cpp_string_utf16, runtime_identity, BridgeBackend, CallbackIl2Cpp, ExactHandle,
    StringBorrow,
};
use shiny_song_tools::error::Il2CppError;
use shiny_song_tools::paths::{file_name, same_path};
use std::path::Path;

fn backend() -> BridgeBackend {
    BridgeBackend::new(ExactHandle::from_raw(0x40, "/app/UnityFramework".to_owned()))
}

#[test]
fn domain_probe_runs_once() {
    let mut backend = backend();
    assert_eq!(backend.domain(), None);
    assert_eq!(backend.domain_get(|| 0), Err(Il2CppError::DomainUnavailable));
    assert_eq!(backend.domain_get(|| 7), Ok(DomainHandle(7)));
    assert_eq!(
        backend.domain_get(|| panic!("captured already")),
        Ok(DomainHandle(7))
    );
    assert_eq!(backend.domain(), Some(DomainHandle(7)));
    assert_eq!(backend.handle().path(), "/app/UnityFramework");
}

#[test]
fn only_own_attachments_are_detached() {
    let mut backend = backend();
    assert!(matches!(
        backend.attach_current_thread(|| 1, |_| 1),
        Err(Il2CppError::NotReady)
    ));
    backend.domain_get(|| 7).expect("domain");
    let (adopted, thread) = backend
        .attach_current_thread(|| 5, |_| panic!("adopted"))
        .expect("attached");
    assert_eq!(thread, 5);
    assert!(!adopted.release());
    let (owned, thread) = backend
        .attach_current_thread(|| 0, |domain| domain + 1)
        .expect("attached");
    assert_eq!(thread, 8);
    assert!(owned.release());
    assert!(matches!(
        backend.attach_current_thread(|| 0, |_| 0),
        Err(Il2CppError::AttachFailed)
    ));
    assert!(!AttachGuard::new(true).leak());
}

#[test]
fn first_missing_export_is_reported() {
    assert_eq!(exports_result(None), Ok(()));
    assert_eq!(
        exports_result(Some(vec!["il2cpp_a", "il2cpp_b"])),
        Err(Il2CppError::ExportMissing("il2cpp_a"))
    );
    assert_eq!(exports_result(Some(vec![])), Err(Il2CppError::NotReady));
    assert_eq!(hydrate_result(true), Ok(()));
    assert_eq!(hydrate_result(false), Err(Il2CppError::NotReady));
}

#[test]
fn runtime_identity_needs_the_core_library() {
    assert_eq!(runtime_identity(None), Err(Il2CppError::IdentityMismatch));
    let identity = runtime_identity(Some("mscorlib".to_owned())).expect("identity");
    assert_eq!(identity.unity_version, "mscorlib");
    assert_eq!(identity.il2cpp_variant, "il2cpp-bridge-rs/0.1.4");
}

#[test]
fn game_image_is_found_by_its_file_name() {
    let paths = vec![
        None,
        Some("/app/UnityFramework2".to_owned()),
        Some("/app/UnityFramework/..".to_owned()),
        Some("/app/UnityFramework".to_owned()),
        Some("UnityFramework".to_owned()),
    ];
    assert_eq!(enumerate_unity_framework(&paths), Some(3));
    assert_eq!(enumerate_unity_framework(&vec![None]), None);
}

#[test]
fn loaded_image_is_adopted_before_it_is_loaded() {
    let handle = ExactHandle::open("/app/U".to_owned(), |_| 3, |_| panic!("adopted"));
    assert_eq!(handle.expect("adopted").identity().handle, ImageHandle(3));
    let handle = ExactHandle::open("/app/U".to_owned(), |_| 0, |path| path.len());
    let handle = handle.expect("loaded");
    assert_eq!(handle.path(), "/app/U");
    let identity = handle.identity();
    assert_eq!((identity.name.as_str(), identity.handle), ("U", ImageHandle(6)));
    assert_eq!(ExactHandle::from_raw(1, "/".to_owned()).identity().name, "");
    assert!(matches!(
        ExactHandle::open("/app/U".to_owned(), |_| 0, |_| 0),
        Err(Il2CppError::ImageNotFound)
    ));
    assert!(matches!(
        ExactHandle::open("/app\0/U".to_owned(), |_| 1, |_| 1),
        Err(Il2CppError::ImageIdentityMismatch)
    ));
}

#[test]
fn symbols_of_other_images_do_not_count() {
    let handle = ExactHandle::from_raw(9, "/app/U".to_owned());
    let own = |_: usize| Some("/app/U".to_owned());
    assert_eq!(
        handle.symbol("f", |raw, name| raw + name.len(), own),
        Some(10)
    );
    assert_eq!(handle.symbol("f", |_, _| 0, own), None);
    assert_eq!(handle.symbol("f\0", |_, _| 1, own), None);
    assert_eq!(
        handle.symbol("f", |_, _| 1, |_| Some("/other".to_owned())),
        None
    );
    assert_eq!(handle.symbol("f", |_, _| 1, |_| None), None);
    assert_eq!(exact_symbol(4, Some("/a".to_owned()), "/a"), Some(4));
    assert_eq!(exact_symbol(0, Some("/a".to_owned()), "/a"), None);
    assert_eq!(exact_symbol(4, Some("/app//U".to_owned()), "/app/U"), Some(4));
}

#[test]
fn paths_are_compared_by_their_components() {
    for (path, other) in [
        ("/app/U", "/app//U"),
        ("/app/U", "/app/./U/"),
        ("a/b", "a/b/."),
        ("", ""),
        ("/", "//"),
    ] {
        assert!(same_path(path, other), "{path} {other}");
        assert_eq!(Path::new(path) == Path::new(other), true);
    }
    for (path, other) in [
        ("/app/U", "app/U"),
        ("./a", "a"),
        ("/app/U", "/app/V"),
        ("/app/U", "/app"),
        ("/app/../U", "/U"),
        ("", "/"),
    ] {
        assert!(!same_path(path, other), "{path} {other}");
        assert_eq!(Path::new(path) == Path::new(other), false);
    }
    for path in ["/app/U", "U", "/app/U/", "/app/.", "..", "a/..", ".", "./", "/", "", "é/ü.x"] {
        let expected = Path::new(path).file_name().and_then(|name| name.to_str());
        assert_eq!(file_name(path).as_deref(), expected, "{path}");
    }
}

#[test]
fn managed_strings_are_borrowed_by_their_length() {
    let strings = CallbackIl2Cpp::new();
    assert_eq!(strings.string_utf16(true, 3, false), StringBorrow::Nothing);
    assert_eq!(strings.string_utf16(false, -1, false), StringBorrow::Nothing);
    assert_eq!(strings.string_utf16(false, 0, true), StringBorrow::Empty);
    assert_eq!(strings.string_utf16(false, 3, true), StringBorrow::Nothing);
    assert_eq!(strings.string_utf16(false, 3, false), StringBorrow::Units(3));
}

#[test]
fn managed_strings_are_read_at_their_offsets() {
    let unit = |address: usize| (address - 0x1000) as u16;
    let units = read_il2cpp_string_utf16(
        0x1000,
        &|address: usize| {
            assert_eq!(address, 0x1010);
            3
        },
        &unit,
    );
    assert_eq!(units, Some(vec![0x14, 0x16, 0x18]));
    assert_eq!(read_il2cpp_string_utf16(0x1000, &|_| -4, &unit), Some(vec![]));
    assert_eq!(read_il2cpp_string_utf16(0, &|_| panic!("null"), &unit), None);
}
