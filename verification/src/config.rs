//! Runtime configuration as seen by plugins.
//!
//! The runtime parses the configuration file (fail-closed) and hands the typed
//! result to the application. Plugins only read the typed snapshot.

use vstd::prelude::*;

verus! {

/// Typed runtime configuration snapshot.
#[derive(Debug, Clone, Copy, PartialEq, Eq, Structural)]
pub struct RuntimeConfig {
    pub debug: DebugConfig,
    pub fps: FpsConfig,
    pub translation: TranslationConfig,
    pub recon: ReconConfig,
}

/// `[debug]` section. `enabled = true` registers the debug plugin at the head
/// of the production plugin list; the default is off and the fail-closed
/// fallback forces it off.
#[derive(Debug, Clone, Copy, PartialEq, Eq, Structural)]
pub struct DebugConfig {
    pub enabled: bool,
}

/// `[fps]` section. The plugin is disabled by default.
#[derive(Debug, Clone, Copy, PartialEq, Eq, Structural)]
pub struct FpsConfig {
    pub unlock_fps: bool,
}

/// `[translation]` section. Dump mode is an explicit development switch.
#[derive(Debug, Clone, Copy, PartialEq, Eq, Structural)]
pub struct TranslationConfig {
    pub dump: bool,
}

/// `[recon]` section. Development-only runtime reconnaissance plugin.
#[derive(Debug, Clone, Copy, PartialEq, Eq, Structural)]
pub struct ReconConfig {
    pub enabled: bool,
}

impl Default for DebugConfig {
    fn default() -> (r: Self)
        ensures
            !r.enabled,
    {
        DebugConfig { enabled: false }
    }
}

impl Default for FpsConfig {
    fn default() -> (r: Self)
        ensures
            !r.unlock_fps,
    {
        FpsConfig { unlock_fps: false }
    }
}

impl Default for TranslationConfig {
    fn default() -> (r: Self)
        ensures
            !r.dump,
    {
        TranslationConfig { dump: false }
    }
}

impl Default for ReconConfig {
    fn default() -> (r: Self)
        ensures
            !r.enabled,
    {
        ReconConfig { enabled: false }
    }
}

impl Default for RuntimeConfig {
    /// Everything is off.
    fn default() -> (r: Self)
        ensures
            !r.debug.enabled,
            !r.fps.unlock_fps,
            !r.translation.dump,
            !r.recon.enabled,
    {
        RuntimeConfig {
            debug: DebugConfig::default(),
            fps: FpsConfig::default(),
            translation: TranslationConfig::default(),
            recon: ReconConfig::default(),
        }
    }
}

} // verus!
