use serde_json::Value;
use shiny_song_tools::backend::MethodResolver;
use shiny_song_tools::base::{DataRoot, OwnerId, RouteId, TopicId};
use shiny_song_tools::config::RuntimeConfig;
use shiny_song_tools::container::{SendOutcome, SlotAccess};
use shiny_song_tools::debug_dispatch::DebugTopicRegistration;
use shiny_song_tools::debug_plugin::DebugPlugin;
use shiny_song_tools::debug_relay::{CallbackDebugEndpoints, EndpointAccess};
use shiny_song_tools::error::{HookError, PluginError};
use shiny_song_tools::gate::{GateBoard, RuntimeGate};
use shiny_song_tools::hook::{HookSite, HookTarget, InstalledHook};
use shiny_song_tools::host::{AppCtx, PluginHost, TopicParts};
use shiny_song_tools::main_thread::MainThreadToken;
use shiny_song_tools::manager::{HostTypes, PluginManager, PluginState};
use shiny_song_tools::method_slot::{MethodRef, SlotMemory, TargetId};
use shiny_song_tools::phase::{
    insertion_allowed, ResourceInsert, RestoreAction, StartupCtx, StartupRegistrar, UpdateCtx,
};
use shiny_song_tools::recon::ReconPlugin;
use shiny_song_tools::route::{
    CallbackBoundedReader, CallbackBoundedWriter, CallbackLatestReader, CallbackSharedReader,
    MainInbox,
};
use shiny_song_tools::routes::{MessageRegister, RouteDirection, RouteTable};
use std::cell::{Cell, RefCell};
use std::rc::Rc;
use std::sync::Arc;

struct Host;

impl HostTypes for Host {
    type Startup = &'static str;
    type Update = &'static str;
    type AnyThread = &'static str;
    type MainThread = &'static str;
    type TypeKey = u32;
    type Remove = &'static str;
    type Container = &'static str;
    type Drain = u32;
}

struct App {
    board: GateBoard,
    runtime: RuntimeGate,
    ctx: AppCtx<Host>,
}

fn app() -> App {
    let mut board = GateBoard::new();
    let runtime = RuntimeGate::new(&mut board);
    let mut plugins = PluginManager::new();
    let owner = plugins.begin_owner("first", &mut board);
    assert_eq!(owner, OwnerId(0));
    assert_eq!(plugins.begin_owner("second", &mut board), OwnerId(1));
    let host = PluginHost {
        plugins,
        routes: RouteTable::new(),
        runtime_gate: runtime.reader(),
        config: RuntimeConfig::default(),
        data_root: DataRoot::new("/tmp/docs".to_owned()),
    };
    App {
        board,
        runtime,
        ctx: AppCtx::new(host, owner),
    }
}

fn resource(
    type_id: u32,
    present: bool,
) -> ResourceInsert<u32, impl FnOnce() -> Result<(), PluginError>, &'static str> {
    ResourceInsert {
        type_id,
        type_label: "State",
        insert: move || insertion_allowed(present, "State"),
        remove: "remove",
    }
}

#[test]
fn ledger_numbers_what_was_inserted() {
    let mut app = app();
    assert_eq!(app.ctx.insert_resource(resource(1, false)), Ok(()));
    assert_eq!(
        app.ctx.insert_resource(resource(2, true)),
        Err(PluginError::ResourceConflict("State"))
    );
    assert_eq!(app.ctx.insert_resource(resource(3, false)), Ok(()));
    let host = app.ctx.into_host();
    let entries: Vec<_> = host.plugins.records()[0]
        .inserted
        .iter()
        .map(|entry| (entry.type_id, entry.order))
        .collect();
    assert_eq!(entries, vec![(1, 0), (3, 1)], "a conflict is not recorded");
    assert!(host.plugins.records()[1].inserted.is_empty());
}

#[test]
fn container_is_registered_once() {
    let mut app = app();
    assert_eq!(app.ctx.register_container("sites"), Ok(()));
    assert_eq!(
        app.ctx.register_container("more"),
        Err(PluginError::Message("a container is already registered"))
    );
    assert_eq!(app.ctx.into_host().plugins.records()[0].container, Some("sites"));
}

#[test]
fn systems_and_restores_are_kept_in_order() {
    let mut app = app();
    app.ctx.add_startup_system("s1");
    app.ctx.add_update_system("u1");
    app.ctx.add_update_system("u2");
    app.ctx.register_restore_any_thread("r1");
    assert_eq!(app.ctx.owner_id(), OwnerId(0));
    assert_eq!(app.ctx.data_root().path(), "/tmp/docs");
    assert_eq!(app.ctx.config(), RuntimeConfig::default());
    assert!(!app.ctx.runtime_gate_reader().is_open(&app.board));
    let host = app.ctx.into_host();
    let record = host.plugins.record(OwnerId(0));
    assert_eq!(record.startup, vec!["s1"]);
    assert_eq!(record.update, vec!["u1", "u2"]);
    assert!(matches!(record.effects[0], RestoreAction::AnyThread("r1")));
    assert_eq!(record.state, PluginState::Active);
    assert!(host.plugins.is_active(OwnerId(1)));
    assert_eq!(
        host.plugins.active_owner_ids(),
        vec![OwnerId(0), OwnerId(1)]
    );
}

#[test]
fn startup_registrations_are_undone_last_first() {
    let token = MainThreadToken::assume_main_thread(1).expect("main thread");
    assert!(MainThreadToken::assume_main_thread(0).is_none());
    let mut ctx: StartupCtx<'_, &str, &str, u32, (), ()> = StartupCtx {
        main: &token,
        reg: StartupRegistrar::new(Vec::new()),
        pending: Vec::new(),
    };
    ctx.reg.register_restore_any_thread("any");
    ctx.reg.register_restore_main_thread("main");
    let insert = ResourceInsert {
        type_id: 4,
        type_label: "State",
        insert: (),
        remove: (),
    };
    assert!(ctx.insert_resource(insert).is_ok());
    assert_eq!(ctx.pending.len(), 1);
    assert!(matches!(
        ctx.reg.next_restore(),
        Some(RestoreAction::MainThread("main"))
    ));
    assert!(matches!(
        ctx.reg.next_restore(),
        Some(RestoreAction::AnyThread("any"))
    ));
    assert!(ctx.reg.next_restore().is_none());
    assert!(ctx.reg.into_actions().is_empty());
}

#[test]
fn routes_are_listed_and_drained_by_active_owners() {
    let mut app = app();
    let _ = app.ctx.main_to_callback_latest::<u32>("A");
    let registered = RefCell::new(Vec::new());
    let names = &registered;
    let receiver = |name: &'static str| MessageRegister {
        register: move || names.borrow_mut().push(name),
    };
    let _ = app.ctx.callback_to_main_latest::<u32, _>("B", 7, receiver("B"));
    let _ = app.ctx.callback_to_main_shared::<String, _>("C", 8, receiver("C"));
    assert_eq!(*registered.borrow(), vec!["B", "C"], "each with its route");
    let host = app.ctx.into_host();
    let ids: Vec<_> = host.routes.entries().iter().map(|entry| entry.id).collect();
    assert_eq!(ids, vec![RouteId(0), RouteId(1), RouteId(2)]);
    assert_eq!(
        host.routes.entries()[1].direction,
        RouteDirection::CallbackToMain
    );
    assert_eq!(host.routes.active_drains(&|_| true), vec![7, 8]);
    assert!(host.routes.active_drains(&|_| false).is_empty());
    assert_eq!(
        host.routes.snapshot(&|drain: &u32| *drain as usize * 10),
        vec![
            ("A", "latest", 0),
            ("B", "latest", 70),
            ("C", "shared_latest", 80)
        ]
    );
    assert_eq!(host.plugins.records()[0].route_ids, ids);
}

/// Callback-domain container: reader halves and the callback-side writer.
struct MailboxSites {
    latest: CallbackLatestReader<u32>,
    bounded: CallbackBoundedReader<u8, 4>,
    shared: CallbackSharedReader<u64>,
    events: CallbackBoundedWriter<u8, 4>,
}

struct MailboxTarget;

impl HookTarget for MailboxTarget {
    fn target() -> TargetId {
        TargetId {
            assembly: "MockAssembly.dll",
            namespace: "MockNamespace",
            class: "MockClass",
            method: "MailboxMethod",
            param_count: 1,
            is_static: false,
            return_type: "void",
            parameter_types: &["int"],
        }
    }
}

#[derive(Clone)]
struct Word(Rc<Cell<usize>>);

impl SlotMemory for Word {
    fn read(&mut self) -> Option<usize> {
        Some(self.0.get())
    }
    fn compare_exchange(&mut self, expected: usize, new: usize) -> Result<(), usize> {
        if self.0.get() != expected {
            return Err(self.0.get());
        }
        self.0.set(new);
        Ok(())
    }
}

impl MethodResolver for Word {
    type Memory = Word;
    fn resolve(&mut self, target: &TargetId) -> Result<MethodRef, HookError> {
        Ok(MethodRef {
            assembly: target.assembly.to_owned(),
            namespace: target.namespace.to_owned(),
            class: target.class.to_owned(),
            method: target.method.to_owned(),
            param_count: 1,
            is_static: false,
            return_type: "void".to_owned(),
            parameter_types: vec!["int".to_owned()],
            is_generic: false,
            is_inflated: false,
            method_info: 1,
            method_pointer_slot: 1,
        })
    }
    fn slot_memory(&mut self, _method: &MethodRef) -> Word {
        self.clone()
    }
}

#[test]
fn mailbox_three_semantics_and_command_drain_delivery() {
    let mut app = app();
    let (latest_w, latest_r, mut latest) = app.ctx.main_to_callback_latest::<u32>("Setting");
    let (bounded_w, bounded_r, bounded) = app.ctx.main_to_callback_bounded::<u8, 4>("u8");
    let (shared_w, shared_r, mut shared) = app.ctx.main_to_callback_shared::<u64>("DebugRequest");
    let mut inbox = MainInbox::new();
    let (events_w, events_r, events) = app.ctx.callback_to_main_bounded::<u8, _, 4>(
        "FpsEvent",
        1,
        MessageRegister {
            register: || inbox.register(),
        },
    );
    let bounded = RefCell::new(bounded);
    let events = RefCell::new(events);

    let word = Word(Rc::new(Cell::new(0x1000)));
    let mut site = HookSite::new();
    let published = app
        .ctx
        .hook::<MailboxSites>()
        .container(Arc::new(MailboxSites {
            latest: latest_r,
            bounded: bounded_r,
            shared: shared_r,
            events: events_w,
        }))
        .handler(&mut site, 0x2000)
        .expect("publish");
    let wrapped = |_: InstalledHook<Word>| "restore";
    app.ctx
        .install_hook::<MailboxSites, MailboxTarget, Word, _>(
            published,
            &mut site,
            &mut Some(word),
            wrapped,
        )
        .expect("install");

    // Main domain: two latest writes, one visible; bounded reports Full at
    // capacity; the second shared write replaces the first.
    let token = MainThreadToken::assume_main_thread(1).expect("main thread");
    let ctx = UpdateCtx { main: &token };
    assert_eq!(latest_w.try_send(&ctx, &mut latest, 1), SendOutcome::Accepted);
    assert_eq!(latest_w.try_send(&ctx, &mut latest, 2), SendOutcome::Replaced);
    for value in [10, 11, 12, 13] {
        assert_eq!(
            bounded_w.try_send(&ctx, &mut bounded.borrow_mut(), value),
            SendOutcome::Accepted
        );
    }
    assert_eq!(
        bounded_w.try_send(&ctx, &mut bounded.borrow_mut(), 14),
        SendOutcome::Full,
        "bounded mailbox reports Full at capacity, never blocks"
    );
    assert_eq!(
        shared_w.try_send(&ctx, &mut shared, SlotAccess::Free, 100),
        Ok(SendOutcome::Accepted)
    );
    assert_eq!(
        shared_w.try_send(&ctx, &mut shared, SlotAccess::Free, 101),
        Ok(SendOutcome::Replaced)
    );

    assert!(app.runtime.open(&mut app.board));
    let host = app.ctx.into_host();
    host.plugins.records()[0].gate.open(&mut app.board);
    assert!(site.is_dispatchable(&app.board), "gates open after startup");

    // Callback domain: one dispatch, all four endpoint kinds.
    let result = site.dispatch(
        &app.board,
        |_original: usize| panic!("passthrough must not run when gates are open"),
        || 0,
        |mut callback| {
            let cap = callback.cap();
            let container = callback.container();
            assert_eq!(
                container.latest.try_read(cap, &latest),
                Some(2),
                "latest overwrite semantics"
            );
            let drained: Vec<u8> = (0..4)
                .filter_map(|_| container.bounded.try_read(cap, &mut bounded.borrow_mut()))
                .collect();
            assert_eq!(drained, vec![10, 11, 12, 13], "bounded FIFO order");
            let seen = container
                .shared
                .try_read(cap, &shared, SlotAccess::Free)
                .expect("shared visible");
            assert_eq!(*seen, 101);
            for i in 0..5u8 {
                let outcome = container.events.try_send(cap, &mut events.borrow_mut(), i);
                if i < 4 {
                    assert_eq!(outcome, SendOutcome::Accepted);
                } else {
                    assert_eq!(outcome, SendOutcome::Full);
                }
            }
            let called = callback.call_original(|original| original);
            callback.finish(called)
        },
    );
    assert_eq!(result, 0x1000);

    // Main domain: the next drain delivers the events.
    let mut unknown = MainInbox::new();
    let mut events = events.into_inner();
    assert_eq!(events_r.depth(&events), 4);
    assert_eq!(events_r.drain(&mut events, &mut unknown, 4), 0, "no receiver");
    assert_eq!(events_r.drain(&mut events, &mut inbox, 0), 0, "nothing above the watermark");
    assert_eq!(events_r.depth(&events), 4);
    assert_eq!(events_r.drain(&mut events, &mut inbox, 4), 4);
    let sum: u64 = inbox.read().into_iter().map(u64::from).sum();
    assert_eq!(sum, 1 + 2 + 3);

    // Owner is still active: nothing failed.
    let record = &host.plugins.records()[0];
    assert_eq!(record.state, PluginState::Active);
    assert!(matches!(
        record.effects[0],
        RestoreAction::AnyThread("restore")
    ));
}

type Registration = DebugTopicRegistration<(), &'static str>;

#[test]
fn debug_topics_are_noted_when_the_registry_takes_them() {
    let mut app = app();
    let registered = app.ctx.register_main_debug::<(), &'static str, _>(
        "topic",
        "decode",
        |registration: Registration| {
            assert_eq!(registration.name, "topic");
            assert_eq!(registration.decode, "decode");
            assert!(!registration.callback_domain);
            Ok(TopicId(5))
        },
        "system",
    );
    assert_eq!(registered, Ok(()));
    let refused = app.ctx.register_main_debug::<(), &'static str, _>(
        "topic",
        "decode",
        |_: Registration| Err(PluginError::Message("taken")),
        "other",
    );
    assert_eq!(refused, Err(PluginError::Message("taken")));
    let endpoints: Result<CallbackDebugEndpoints<u32, u32>, PluginError> =
        app.ctx.register_callback_debug::<(), &'static str, u32, u32, _>(
            "callback",
            "decode",
            |registration: Registration| {
                assert!(registration.callback_domain);
                Ok(TopicId(6))
            },
            "relay",
        );
    assert!(!endpoints.expect("registered").request.is_set(SlotAccess::Free));
    let host = app.ctx.into_host();
    let record = &host.plugins.records()[0];
    assert_eq!(record.topic_ids, vec![TopicId(5), TopicId(6)]);
    assert_eq!(record.update, vec!["system", "relay"]);
}

#[test]
fn callback_topics_are_answered_inside_a_dispatch() {
    let mut app = app();
    let word = Word(Rc::new(Cell::new(0x1000)));
    let mut site = HookSite::new();
    let published = app
        .ctx
        .hook::<()>()
        .container(Arc::new(()))
        .handler(&mut site, 0x2000)
        .expect("publish");
    app.ctx
        .install_hook::<(), MailboxTarget, Word, _>(published, &mut site, &mut Some(word.clone()), |_| "r")
        .expect("install");
    assert!(app.runtime.open(&mut app.board));
    let host = app.ctx.into_host();
    host.plugins.records()[0].gate.open(&mut app.board);

    let endpoints = RefCell::new(CallbackDebugEndpoints::<u32, Value>::new());
    assert!(endpoints
        .borrow_mut()
        .request
        .try_send(SlotAccess::Free, Arc::new(20))
        .is_ok());
    let access = EndpointAccess {
        take: SlotAccess::Free,
        put_back: SlotAccess::Free,
        answer: SlotAccess::Free,
    };
    let handled = site.dispatch(
        &app.board,
        |_: usize| false,
        || false,
        |mut callback| {
            let handled = endpoints.borrow_mut().handle_pending(
                callback.cap(),
                access,
                |request| Ok(Value::from(request + 1)),
            );
            let _ = callback.call_original(|_| ());
            callback.finish(Some(handled))
        },
    );
    assert!(handled);
    let mut endpoints = endpoints.into_inner();
    assert!(!endpoints.request.is_set(SlotAccess::Free));
    let answer = endpoints.response.take(SlotAccess::Free).expect("answered");
    assert!(matches!(&*answer, Ok(value) if *value == Value::from(21)));
}

#[test]
fn debug_plugin_binds_before_it_registers() {
    let mut app = app();
    let failed = DebugPlugin.build(
        &mut app.ctx,
        |path: String, _gate| {
            assert_eq!(path, "/tmp/docs/shiny-song-tools/d.sock");
            Err::<(), String>("in use".to_owned())
        },
        |()| "dispatch",
    );
    assert_eq!(failed, Err(PluginError::Io("in use".to_owned())));
    let built = DebugPlugin.build(&mut app.ctx, |_, _| Ok(()), |()| "dispatch");
    assert_eq!(built, Ok(()));
    assert_eq!(app.ctx.into_host().plugins.records()[0].update, vec!["dispatch"]);
}

#[test]
fn recon_plugin_stops_at_a_refused_topic() {
    let mut app = app();
    let names = RefCell::new(Vec::new());
    let offer = |registration: Registration| {
        names.borrow_mut().push(registration.name);
        if registration.name == "recon.callers" {
            Err(PluginError::Message("taken"))
        } else {
            Ok(TopicId(1))
        }
    };
    let parts = |system: &'static str| TopicParts {
        decode: "decode",
        register: &offer,
        system,
    };
    let built = ReconPlugin.build::<Host, (), &'static str, _, _>(
        &mut app.ctx,
        parts("class system"),
        parts("callers system"),
    );
    assert_eq!(built, Err(PluginError::Message("taken")));
    assert_eq!(*names.borrow(), vec!["recon.class", "recon.callers"]);
    assert_eq!(
        app.ctx.into_host().plugins.records()[0].update,
        vec!["class system"]
    );
}

#[test]
fn drains_take_no_more_than_the_watermark() {
    let mut app = app();
    let mut numbers = MainInbox::new();
    let mut texts = MainInbox::new();
    let (_, latest_r, mut latest) = app.ctx.callback_to_main_latest::<u32, _>(
        "L",
        1,
        MessageRegister {
            register: || numbers.register(),
        },
    );
    let (_, shared_r, mut shared) = app.ctx.callback_to_main_shared::<String, _>(
        "S",
        2,
        MessageRegister {
            register: || texts.register(),
        },
    );
    let _ = latest.try_send(5);
    assert!(shared.try_send(SlotAccess::Free, Arc::new("x".to_owned())).is_ok());

    assert_eq!(latest_r.drain(&mut latest, &mut numbers, 0), 0);
    assert_eq!(latest_r.depth(&latest), 1);
    assert_eq!(shared_r.drain(&mut shared, SlotAccess::Free, &mut texts, 0), 0);
    assert!(shared.is_set(SlotAccess::Free));
    assert!(numbers.read().is_empty() && texts.read().is_empty());

    assert_eq!(latest_r.drain(&mut latest, &mut numbers, 1), 1);
    assert_eq!(shared_r.drain(&mut shared, SlotAccess::Free, &mut texts, 1), 1);
    assert_eq!(numbers.read(), vec![5]);
    assert_eq!(*texts.read()[0].0, "x");
}
