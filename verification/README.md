# Shiny Song Tools

Runtime hooking tools for an IL2CPP game, as a verified library with a thin
process around it.

- `src/` is the library. Every function states in its contract what it returns
  and what it changes, and Verus proves it. What holds across functions stands
  as public proof functions next to them. Slot memory, the IL2CPP platform, the
  readiness probe and the method resolver are objects that the process supplies.
  Each keeps a log of what it was asked and what it answered: a contract says
  which entries a function adds to the log, and what it makes of every answer.
  Functions that are handed in may be called only where a contract says so.
- `tests/` runs the library, with the real JSON, TOML and queue crates linked.
- `app/` is the process: the FFI entry, threads, the debug socket, the dynamic
  loader, code pages, the IL2CPP bridge, logging and the shared world.

## Modules

| Area | Modules |
| --- | --- |
| Code patching | `arm64`, `entry_patch`, `method_slot` |
| Hooks | `hook`, `original`, `callback`, `main_thread`, `backend`, `bridge`, `paths` |
| Mailboxes | `raw`, `container`, `route`, `routes`, `event`, `observability` |
| Plugins | `gate`, `phase`, `manager`, `host`, `fps`, `recon`, `macho` |
| Debug control plane | `json`, `debug_topic`, `debug_relay`, `debug_transport`, `debug_dispatch`, `debug_laws`, `debug_plugin` |
| Startup | `config`, `runtime_config`, `ffi`, `bootstrap` |

What the library takes from other crates goes through a few small functions in
`json`, `raw`, `runtime_config` and `ffi`, whose contracts are believed; each
says in its doc comment what it claims.
