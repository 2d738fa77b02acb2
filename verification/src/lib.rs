//! Runtime hooking tools for an IL2CPP game: function-entry and method-slot
//! hooks, callback-safe mailboxes, plugin ownership, a debug control plane and
//! the one-shot bootstrap.
//!
//! Shared objects are passed in by reference and every operation states how it
//! changes them; the process around the library holds them behind locks, does
//! the I/O and hands the results over as plain values.

use vstd::prelude::*;

pub mod arm64;
pub mod backend;
pub mod base;
pub mod bootstrap;
pub mod bootstrap_laws;
pub mod bridge;
pub mod callback;
pub mod compact_codes;
pub mod config;
pub mod container;
pub mod debug_dispatch;
pub mod debug_laws;
pub mod debug_plugin;
pub mod debug_relay;
pub mod debug_topic;
pub mod debug_transport;
pub mod entry_patch;
pub mod error;
pub mod event;
pub mod ffi;
pub mod fps;
pub mod fps_laws;
pub mod gate;
pub mod hook;
pub mod hook_laws;
pub mod host;
pub mod host_laws;
pub mod json;
pub mod machine;
pub mod macho;
pub mod main_thread;
pub mod manager;
pub mod method_slot;
pub mod observability;
pub mod original;
pub mod patch_laws;
pub mod paths;
pub mod phase;
pub mod platform_laws;
pub mod plugin_laws;
pub mod raw;
pub mod recon;
pub mod recon_laws;
pub mod route;
pub mod route_laws;
pub mod routes;
pub mod runtime_config;
pub mod text;
pub mod topic_laws;
pub mod trampoline_laws;
pub mod wire_laws;

verus! {

} // verus!
