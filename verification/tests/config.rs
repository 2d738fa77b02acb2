use shiny_song_tools::base::DataRoot;
use shiny_song_tools::config::{DebugConfig, FpsConfig, ReconConfig, RuntimeConfig, TranslationConfig};
use shiny_song_tools::runtime_config::{
    config_path, load_config, parse_config, FpsSection, ParsedConfig,
};

#[test]
fn missing_or_invalid_falls_back_to_fail_closed() {
    // A data root that has no scsp.toml: default.
    let config = load_config(None);
    assert!(!config.debug.enabled);
    let config = load_config(Some("not toml at all [".to_owned()));
    assert_eq!(config, ParsedConfig::default());
}

#[test]
fn parses_debug_enabled() {
    let config = parse_config("[debug]\nenabled = true\n").expect("valid config");
    assert!(config.debug.enabled);
    let config = parse_config("[debug]\nenabled = false\n").expect("valid config");
    assert!(!config.debug.enabled);
    assert_eq!(config.fps, FpsSection::default());
    // Fail-closed on schema mismatch.
    assert!(parse_config("[debug]\nenabled = \"yes\"\n").is_none());
    assert!(parse_config("not toml at all [").is_none());
    let config = parse_config("[fps]\nenabled = true\ntarget = 144\n").expect("valid fps config");
    assert_eq!(
        config.fps,
        FpsSection {
            enabled: true,
            target: 144
        }
    );
    assert!(parse_config("[fps]\nenabled = true\ntarget = 0\n").is_none());
}

#[test]
fn targets_out_of_range_or_of_another_kind_fail_closed() {
    assert!(parse_config("[fps]\nenabled = true\ntarget = 1001\n").is_none());
    assert!(parse_config("[fps]\nenabled = true\ntarget = \"60\"\n").is_none());
    assert!(parse_config("[fps]\nenabled = 1\ntarget = 60\n").is_none());
    assert!(parse_config("[fps]\nenabled = true\ntarget = 9223372036854775807\n").is_none());
    let config = parse_config("[fps]\nenabled = false\ntarget = 1000\n").expect("in range");
    assert_eq!(
        config.fps,
        FpsSection {
            enabled: false,
            target: 1000
        }
    );
}

#[test]
fn loaded_text_is_parsed() {
    let config = load_config(Some("[debug]\nenabled = true\n".to_owned()));
    assert!(config.debug.enabled);
}

#[test]
fn configuration_lies_under_the_data_root() {
    let root = DataRoot::new("/tmp/documents".to_owned());
    assert_eq!(config_path(&root), "/tmp/documents/scsp.toml");
}

#[test]
fn everything_is_off_by_default() {
    let config = RuntimeConfig::default();
    assert_eq!(config.debug, DebugConfig { enabled: false });
    assert_eq!(config.fps, FpsConfig { unlock_fps: false });
    assert_eq!(config.translation, TranslationConfig { dump: false });
    assert_eq!(config.recon, ReconConfig { enabled: false });
}

#[test]
fn paths_join_under_the_root() {
    let root = DataRoot::new("/data".to_owned());
    assert_eq!(root.join("a/b"), "/data/a/b");
    assert_eq!(root.path(), "/data");
    assert_eq!(root.display(), "DataRoot(<documents>)", "the path stays private");
    assert_eq!(DataRoot::new("/data/".to_owned()).join("a"), "/data/a");
    assert_eq!(root.join("/elsewhere"), "/elsewhere");
}
