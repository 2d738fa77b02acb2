use shiny_song_tools::ffi::{copy_documents_path, entry, EntryStep, StartMarker};

#[test]
fn copy_rejects_null_and_empty() {
    assert!(copy_documents_path(None).is_none());
    let empty = b"\0";
    assert!(copy_documents_path(Some(empty)).is_none());
}

#[test]
fn copy_accepts_valid_path() {
    let ok = b"/tmp/some-documents\0";
    let path = copy_documents_path(Some(ok)).expect("valid path");
    assert_eq!(path, "/tmp/some-documents");
}

#[test]
fn copy_rejects_what_is_not_text() {
    assert!(copy_documents_path(Some(b"/tmp/\xff\0")).is_none());
    assert_eq!(
        copy_documents_path(Some("/tmp/\u{3042}\0rest".as_bytes())).as_deref(),
        Some("/tmp/\u{3042}")
    );
}

#[test]
fn entry_starts_once_with_the_configuration_it_read() {
    let mut marker = StartMarker::new();
    let step = entry(&mut marker, Some(b"/tmp/docs\0"), |path: &str| {
        assert_eq!(path, "/tmp/docs/scsp.toml");
        Some("[debug]\nenabled = true\n".to_owned())
    });
    match step {
        EntryStep::Start { data_root, config } => {
            assert_eq!(data_root.path(), "/tmp/docs");
            assert!(config.debug.enabled);
        }
        _ => panic!("the first call starts"),
    }
    let again = entry(&mut marker, Some(b"/tmp/docs\0"), |_: &str| None);
    assert!(matches!(again, EntryStep::Duplicate));
}

#[test]
fn entry_with_an_invalid_path_is_over() {
    let mut marker = StartMarker::new();
    let step = entry(&mut marker, None, |_: &str| panic!("nothing is read"));
    assert!(matches!(step, EntryStep::InvalidPath));
    let again = entry(&mut marker, Some(b"/tmp/docs\0"), |_: &str| None);
    assert!(matches!(again, EntryStep::Duplicate), "the marker is one-shot");
}

#[test]
fn marker_is_claimed_once() {
    let mut marker = StartMarker::new();
    assert!(marker.claim());
    assert!(!marker.claim());
}
