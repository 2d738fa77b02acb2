use shiny_song_tools::backend::MethodResolver;
use shiny_song_tools::base::{DataRoot, RouteId, TopicId};
use shiny_song_tools::config::RuntimeConfig;
use shiny_song_tools::container::{LatestCell, SendOutcome};
use shiny_song_tools::debug_dispatch::DebugTopicRegistration;
use shiny_song_tools::error::{HookError, PluginError};
use shiny_song_tools::fps::{
    fps_get_handler, fps_set_handler, rate_replacement, rate_target, vsync_replacement,
    vsync_target, FpsGetRequest, FpsParts, FpsPlugin, FpsSetRequest, FpsSetting, FpsSites,
    FpsState, FpsWriter, MethodInfoOpaque, SetterFn, SetterHook, GET_TOPIC, SET_TOPIC,
};
use shiny_song_tools::gate::{GateBoard, RuntimeGate};
use shiny_song_tools::hook::{HookSite, InstalledHook};
use shiny_song_tools::host::{AppCtx, PluginHost, TopicParts};
use shiny_song_tools::main_thread::MainThreadToken;
use shiny_song_tools::manager::{HostTypes, PluginManager};
use shiny_song_tools::method_slot::{MethodRef, SlotMemory, TargetId};
use shiny_song_tools::phase::{insertion_allowed, ResourceInsert, UpdateCtx};
use shiny_song_tools::routes::RouteTable;
use shiny_song_tools::runtime_config::FpsSection;
use std::cell::{Cell, RefCell};
use std::rc::Rc;
use std::sync::Arc;

#[test]
fn production_targets_are_stable_and_distinct() {
    assert_eq!(rate_target().assembly, "UnityEngine.CoreModule.dll");
    assert_eq!(rate_target().class, "Application");
    assert_eq!(rate_target().method, "set_targetFrameRate");
    assert_eq!(vsync_target().class, "QualitySettings");
    assert_eq!(vsync_target().method, "set_vSyncCount");
    assert_ne!(rate_target(), vsync_target());
}

#[test]
fn setter_abi_is_the_declared_static_shape() {
    assert_eq!(
        core::mem::size_of::<SetterFn>(),
        core::mem::size_of::<usize>()
    );
    assert_eq!(core::mem::size_of::<MethodInfoOpaque>(), 0);
}

fn main_token() -> MainThreadToken {
    MainThreadToken::assume_main_thread(1).expect("main thread")
}

/// The setter that the game would call, with what it was called with.
fn recorder(calls: &RefCell<Vec<(usize, i32)>>) -> impl Fn(usize, i32) + '_ {
    move |address: usize, value: i32| calls.borrow_mut().push((address, value))
}

struct Host;

impl HostTypes for Host {
    type Startup = ();
    type Update = &'static str;
    type AnyThread = InstalledHook<Word>;
    type MainThread = ();
    type TypeKey = u32;
    type Remove = &'static str;
    type Container = Arc<FpsSites>;
    type Drain = ();
}

#[derive(Clone)]
struct Word(Rc<Cell<usize>>);

impl SlotMemory for Word {
    fn read(&mut self) -> Option<usize> {
        Some(self.0.get())
    }
    fn compare_exchange(&mut self, expected: usize, new: usize) -> Result<(), usize> {
        if self.0.get() != expected {
            return Err(self.0.get());
        }
        self.0.set(new);
        Ok(())
    }
}

/// Resolves the two setters, each with a slot of its own.
struct Setters {
    rate: Word,
    vsync: Word,
}

impl MethodResolver for Setters {
    type Memory = Word;

    fn resolve(&mut self, target: &TargetId) -> Result<MethodRef, HookError> {
        Ok(MethodRef {
            assembly: target.assembly.to_owned(),
            namespace: target.namespace.to_owned(),
            class: target.class.to_owned(),
            method: target.method.to_owned(),
            param_count: 1,
            is_static: true,
            return_type: "void".to_owned(),
            parameter_types: vec!["int".to_owned()],
            is_generic: false,
            is_inflated: false,
            method_info: 0x10,
            method_pointer_slot: 0x10,
        })
    }

    fn slot_memory(&mut self, method: &MethodRef) -> Word {
        if method.class == "Application" {
            self.rate.clone()
        } else {
            self.vsync.clone()
        }
    }
}

type Registration = DebugTopicRegistration<(), ()>;

struct Built {
    board: GateBoard,
    runtime: RuntimeGate,
    ctx: AppCtx<Host>,
    rate_site: HookSite<FpsSites>,
    vsync_site: HookSite<FpsSites>,
    rate: Word,
    vsync: Word,
    started: Option<FpsState>,
    mailbox: Result<LatestCell<FpsSetting>, PluginError>,
    writer: Option<FpsWriter>,
    topics: Vec<&'static str>,
}

/// Registers the plugin; `conflict` fails the first resource.
fn build(conflict: bool) -> Built {
    let mut board = GateBoard::new();
    let runtime = RuntimeGate::new(&mut board);
    let mut plugins = PluginManager::new();
    let owner = plugins.begin_owner("fps", &mut board);
    plugins.records()[0].gate.open(&mut board);
    let host = PluginHost {
        plugins,
        routes: RouteTable::new(),
        runtime_gate: runtime.reader(),
        config: RuntimeConfig::default(),
        data_root: DataRoot::new("/tmp".to_owned()),
    };
    let mut ctx: AppCtx<Host> = AppCtx::new(host, owner);
    let rate = Word(Rc::new(Cell::new(0x1000)));
    let vsync = Word(Rc::new(Cell::new(0x2000)));
    let mut resolver = Some(Setters {
        rate: rate.clone(),
        vsync: vsync.clone(),
    });
    let started = Cell::new(None);
    let mut rate_site = HookSite::new();
    let mut vsync_site = HookSite::new();
    let names = RefCell::new(Vec::new());
    let kept = RefCell::new(None);
    let offer = |registration: Registration| {
        names.borrow_mut().push(registration.name);
        Ok(TopicId(names.borrow().len() as u64))
    };
    let mailbox = FpsPlugin.build(
        &mut ctx,
        &FpsSection {
            enabled: true,
            target: 75,
        },
        |state| {
            started.set(Some(state));
            ResourceInsert {
                type_id: 1,
                type_label: "FpsState",
                insert: move || insertion_allowed(conflict, "FpsState"),
                remove: "remove state",
            }
        },
        "FpsSetting",
        |writer| {
            *kept.borrow_mut() = Some(FpsWriter(writer));
            ResourceInsert {
                type_id: 2,
                type_label: "FpsWriter",
                insert: || Ok(()),
                remove: "remove writer",
            }
        },
        |sites: Arc<FpsSites>| sites,
        &mut rate_site,
        &mut vsync_site,
        &mut resolver,
        FpsParts {
            rate: SetterHook {
                replacement: 0xA000,
                wrap: keep_hook,
            },
            vsync: SetterHook {
                replacement: 0xB000,
                wrap: keep_hook,
            },
            get: TopicParts {
                decode: (),
                register: &offer,
                system: "get system",
            },
            set: TopicParts {
                decode: (),
                register: &offer,
                system: "set system",
            },
        },
    );
    let topics = names.borrow().clone();
    let writer = kept.into_inner();
    Built {
        board,
        runtime,
        ctx,
        rate_site,
        vsync_site,
        rate,
        vsync,
        started: started.get(),
        mailbox,
        writer,
        topics,
    }
}

fn keep_hook(hook: InstalledHook<Word>) -> InstalledHook<Word> {
    hook
}

#[test]
fn registered_plugin_fills_its_ledger() {
    let built = build(false);
    assert!(built.mailbox.is_ok());
    assert_eq!(built.topics, vec![GET_TOPIC, SET_TOPIC]);
    assert_eq!(built.rate.0.get(), 0xA000);
    assert_eq!(built.vsync.0.get(), 0xB000);
    assert!(built.rate_site.is_published() && built.vsync_site.is_published());
    let host = built.ctx.into_host();
    let record = &host.plugins.records()[0];
    assert_eq!(record.effects.len(), 2);
    assert_eq!(record.update, vec!["get system", "set system"]);
    assert_eq!(record.topic_ids, vec![TopicId(1), TopicId(2)]);
    assert_eq!(record.route_ids, vec![RouteId(0)]);
    assert!(record.container.is_some());
    let removals: Vec<_> = record
        .inserted
        .iter()
        .map(|entry| (entry.type_id, entry.order, entry.remove))
        .collect();
    assert_eq!(
        removals,
        vec![(1, 0, "remove state"), (2, 1, "remove writer")]
    );
    assert_eq!(host.routes.entries()[0].mailbox, "latest");
    assert_eq!(host.routes.entries()[0].payload, "FpsSetting");
}

#[test]
fn conflicting_resource_ends_the_registration() {
    let built = build(true);
    assert_eq!(
        built.mailbox.err(),
        Some(PluginError::ResourceConflict("FpsState"))
    );
    assert_eq!(built.rate.0.get(), 0x1000, "nothing was hooked");
    assert!(!built.rate_site.is_published());
    assert!(built.topics.is_empty());
    let host = built.ctx.into_host();
    assert!(host.plugins.records()[0].inserted.is_empty());
    assert!(host.routes.entries().is_empty());
}

#[test]
fn set_target_reaches_the_setter() {
    let mut built = build(false);
    let mut mailbox = match built.mailbox {
        Ok(mailbox) => mailbox,
        Err(error) => panic!("build: {error:?}"),
    };
    let writer = built.writer.expect("writer");
    let mut state = built.started.expect("started");
    assert_eq!(state, FpsState { target: 75, updates: 0 });
    let calls = RefCell::new(Vec::new());
    let original = recorder(&calls);

    // Behind a closed gate the game's own value passes.
    assert_eq!(
        rate_replacement(&built.rate_site, &built.board, &mailbox, state.target, 30, &original),
        Some(30)
    );
    assert!(built.runtime.open(&mut built.board));
    // Without a setting, the stored target counts.
    assert_eq!(
        rate_replacement(&built.rate_site, &built.board, &mailbox, state.target, 30, &original),
        Some(75)
    );

    let token = main_token();
    let ctx = UpdateCtx { main: &token };
    let answer = fps_set_handler(
        &ctx,
        FpsSetRequest { target: 144 },
        &mut state,
        &writer,
        &mut mailbox,
    );
    assert!(answer.expect("in range").applied);
    assert_eq!(state, FpsState { target: 144, updates: 1 });
    assert_eq!(
        fps_get_handler(FpsGetRequest {}, &state).expect("always").target,
        144
    );
    assert_eq!(
        rate_replacement(&built.rate_site, &built.board, &mailbox, state.target, 30, &original),
        Some(144)
    );
    assert_eq!(
        vsync_replacement(&built.vsync_site, &built.board, 2, &original),
        Some(0)
    );
    assert_eq!(
        *calls.borrow(),
        vec![(0x1000, 30), (0x1000, 75), (0x1000, 144), (0x2000, 0)]
    );
}

#[test]
fn targets_out_of_range_change_nothing() {
    let built = build(false);
    let mut mailbox = match built.mailbox {
        Ok(mailbox) => mailbox,
        Err(error) => panic!("build: {error:?}"),
    };
    let writer = built.writer.expect("writer");
    let token = main_token();
    let ctx = UpdateCtx { main: &token };
    for target in [0, -1, 1001, i32::MIN, i32::MAX] {
        let mut state = FpsState {
            target: 60,
            updates: 4,
        };
        let error = fps_set_handler(
            &ctx,
            FpsSetRequest { target },
            &mut state,
            &writer,
            &mut mailbox,
        )
        .expect_err("out of range");
        assert_eq!(error.0, "target must be between 1 and 1000");
        assert_eq!(state, FpsState { target: 60, updates: 4 });
        assert_eq!(mailbox.try_read(), None);
    }
    for target in [1, 1000] {
        let mut state = FpsState {
            target: 60,
            updates: u64::MAX,
        };
        let answer = fps_set_handler(
            &ctx,
            FpsSetRequest { target },
            &mut state,
            &writer,
            &mut mailbox,
        );
        assert!(answer.is_ok());
        assert_eq!(state.updates, 0, "the counter wraps");
    }
}

#[test]
fn replacements_of_an_uninstalled_site_call_nothing() {
    let board = GateBoard::new();
    let site = HookSite::new();
    let mut mailbox = LatestCell::new();
    assert_eq!(mailbox.try_send(FpsSetting(30)), SendOutcome::Accepted);
    let calls = RefCell::new(Vec::new());
    let original = recorder(&calls);
    assert_eq!(rate_replacement(&site, &board, &mailbox, 60, 20, &original), None);
    assert_eq!(vsync_replacement(&site, &board, 1, &original), None);
    assert!(calls.borrow().is_empty());
}

#[test]
fn plugin_and_topics_are_named() {
    assert_eq!(FpsPlugin.name(), "fps");
    assert_eq!(GET_TOPIC, "fps.get");
    assert_eq!(SET_TOPIC, "fps.set");
}
