use shiny_song_tools::backend::{
    AttachGuard, DomainHandle, Il2CppApi, ImageHandle, ImageIdentity, MethodResolver,
    RuntimeIdentity,
};
use shiny_song_tools::base::DataRoot;
use shiny_song_tools::bootstrap::{
    image_poll, production_plugins, readiness_poll, run_bootstrap,
    run_bootstrap_timing_probe, run_bootstrap_timing_probe_with_delay,
    run_bootstrap_with_readiness_wait, scheduler_target,
    validate_scheduler_method, Bootstrap, BootstrapAction, BootstrapDeps, BootstrapEnd,
    BootstrapEvent, BootstrapReadiness, CriWareUnityReadiness, PollStep, ProbeAction,
    ProbeRung, Rung,
    CRIWARE_POLL_BACKOFF, CRIWARE_POLL_DEADLINE, CRIWARE_UNITY_READY_SYMBOL,
    IMAGE_POLL_BACKOFF, IMAGE_POLL_DEADLINE, TIMING_PROBE_DELAY,
};
use shiny_song_tools::config::{DebugConfig, FpsConfig, RuntimeConfig};
use shiny_song_tools::error::{HookError, Il2CppError};
use shiny_song_tools::method_slot::{MethodRef, SlotMemory, TargetId};
use std::cell::{Cell, RefCell};

#[test]
fn debug_plugin_precedes_fps_when_both_are_enabled() {
    let config = RuntimeConfig {
        debug: DebugConfig { enabled: true },
        fps: FpsConfig { unlock_fps: true },
        ..RuntimeConfig::default()
    };
    let names: Vec<_> = production_plugins(&config)
        .iter()
        .map(|plugin| plugin.name())
        .collect();
    assert_eq!(names, vec!["debug", "unlock_fps"]);
}

#[test]
fn plugins_are_enabled_one_by_one() {
    let mut config = RuntimeConfig::default();
    assert!(production_plugins(&config).is_empty());
    config.fps.unlock_fps = true;
    assert_eq!(production_plugins(&config).len(), 1);
    assert_eq!(production_plugins(&config)[0].name(), "unlock_fps");
}

#[test]
fn parameters_are_bounded_and_stable() {
    assert_eq!(IMAGE_POLL_DEADLINE, 120_000);
    assert_eq!(IMAGE_POLL_BACKOFF, 250);
    assert_eq!(CRIWARE_POLL_DEADLINE, 120_000);
    assert_eq!(CRIWARE_POLL_BACKOFF, 50);
    assert_eq!(TIMING_PROBE_DELAY, 5_000);
    assert_eq!(CRIWARE_UNITY_READY_SYMBOL, "CRIWARE2813B966");
    let target = scheduler_target();
    assert_eq!(target.class, "MainThreadDispatcher");
    assert_eq!(target.method, "LateUpdate");
    assert!(target.parameter_types.is_empty());
}

#[test]
fn image_is_polled_until_the_deadline() {
    assert!(matches!(image_poll(true, 500, 100, 250), PollStep::Ready));
    assert!(matches!(image_poll(false, 99, 100, 250), PollStep::Sleep(250)));
    assert!(matches!(
        image_poll(false, 100, 100, 250),
        PollStep::Failed(Il2CppError::ImageNotFound)
    ));
}

#[test]
fn readiness_wait_never_oversleeps() {
    assert!(matches!(readiness_poll(Ok(true), 900, 100, 50), PollStep::Ready));
    assert!(matches!(readiness_poll(Ok(false), 0, 100, 50), PollStep::Sleep(50)));
    assert!(matches!(readiness_poll(Ok(false), 80, 100, 50), PollStep::Sleep(20)));
    assert!(matches!(
        readiness_poll(Ok(false), 100, 100, 50),
        PollStep::Failed(Il2CppError::ReadinessDeadlineExceeded)
    ));
    assert!(matches!(
        readiness_poll(Err(Il2CppError::NotReady), 0, 100, 50),
        PollStep::Failed(Il2CppError::NotReady)
    ));
}

#[test]
fn readiness_symbol_is_looked_up_once() {
    let mut probe = CriWareUnityReadiness::new();
    let looked = RefCell::new(0);
    let lookup = |symbol: &'static str| {
        assert_eq!(symbol, "CRIWARE2813B966");
        *looked.borrow_mut() += 1;
        Some(0x40)
    };
    let query = |address: usize| {
        assert_eq!(address, 0x40);
        *looked.borrow()
    };
    assert_eq!(probe.is_ready(lookup, |_| 0), Ok(false));
    assert_eq!(probe.is_ready(lookup, query), Ok(true));
    assert_eq!(*looked.borrow(), 1);

    let mut missing = CriWareUnityReadiness::new();
    assert_eq!(
        missing.is_ready(|_| None, |_| panic!("nothing to call")),
        Err(Il2CppError::ReadinessSymbolMissing("CRIWARE2813B966"))
    );
}

/// A platform that fails at one call, and counts all of them.
#[derive(Default)]
struct Platform {
    fails: &'static str,
    calls: RefCell<Vec<&'static str>>,
}

impl Platform {
    fn call(&self, name: &'static str) -> Result<(), Il2CppError> {
        self.calls.borrow_mut().push(name);
        if self.fails == name {
            Err(Il2CppError::NotReady)
        } else {
            Ok(())
        }
    }
}

impl Il2CppApi for Platform {
    fn unity_framework_image(&mut self) -> Result<ImageIdentity, Il2CppError> {
        self.call("image").map(|()| ImageIdentity {
            name: "UnityFramework".to_owned(),
            handle: ImageHandle(1),
        })
    }
    fn load_exports(&mut self) -> Result<(), Il2CppError> {
        self.call("exports")
    }
    fn domain_get(&mut self) -> Result<DomainHandle, Il2CppError> {
        self.call("domain").map(|()| DomainHandle(2))
    }
    fn attach_current_thread(&mut self) -> Result<AttachGuard, Il2CppError> {
        self.call("attach").map(|()| AttachGuard::new(true))
    }
    fn hydrate_metadata(&mut self) -> Result<(), Il2CppError> {
        self.call("hydrate")
    }
    fn runtime_identity(&mut self) -> Result<RuntimeIdentity, Il2CppError> {
        self.call("identity").map(|()| RuntimeIdentity {
            unity_version: "mscorlib".to_owned(),
            il2cpp_variant: "test".to_owned(),
        })
    }
}

/// Ready at the third poll.
struct Warmup(Cell<u32>);

impl BootstrapReadiness for Warmup {
    fn is_ready(&mut self) -> Result<bool, Il2CppError> {
        self.0.set(self.0.get() + 1);
        Ok(self.0.get() >= 3)
    }
}

struct Word(usize);

impl SlotMemory for Word {
    fn read(&mut self) -> Option<usize> {
        Some(self.0)
    }
    fn compare_exchange(&mut self, _expected: usize, _new: usize) -> Result<(), usize> {
        Ok(())
    }
}

fn scheduler_method() -> MethodRef {
    MethodRef {
        assembly: "UniRx.dll".to_owned(),
        namespace: "UniRx".to_owned(),
        class: "MainThreadDispatcher".to_owned(),
        method: "LateUpdate".to_owned(),
        param_count: 0,
        is_static: false,
        return_type: "void".to_owned(),
        parameter_types: vec![],
        is_generic: false,
        is_inflated: false,
        method_info: 0x10,
        method_pointer_slot: 0x10,
    }
}

struct Resolver(Option<MethodRef>, usize);

impl MethodResolver for Resolver {
    type Memory = Word;
    fn resolve(&mut self, target: &TargetId) -> Result<MethodRef, HookError> {
        assert_eq!(target, &scheduler_target());
        self.0.clone().ok_or(HookError::TargetUnavailable)
    }
    fn slot_memory(&mut self, method: &MethodRef) -> Word {
        assert_eq!(method, &scheduler_method(), "only the exact method has a slot");
        Word(self.1)
    }
}

/// What the parts outside the platform do.
struct Outside {
    word: usize,
    published: bool,
    installed: bool,
    handed_off: bool,
}

const ALL_WELL: Outside = Outside {
    word: 0x77,
    published: true,
    installed: true,
    handed_off: true,
};

/// Runs a bootstrap to its end: the actions, the end, and whether the thread
/// is to be detached.
fn run(
    fails: &'static str,
    method: Option<MethodRef>,
    outside: Outside,
) -> (Vec<BootstrapAction>, BootstrapEnd, Vec<&'static str>) {
    let platform = Platform {
        fails,
        calls: RefCell::new(Vec::new()),
    };
    let mut deps = BootstrapDeps::new(
        platform,
        Warmup(Cell::new(0)),
        Resolver(method, outside.word),
        DataRoot::new("/tmp".to_owned()),
        RuntimeConfig::default(),
    );
    let mut now = 0;
    let mut guard: Option<AttachGuard> = None;
    let mut actions = Vec::new();
    let mut resolved: Option<MethodRef> = None;
    let (mut ladder, mut action) = run_bootstrap_with_readiness_wait(1000, 50);
    loop {
        actions.push(action);
        let event = match action {
            BootstrapAction::QueryImage
            | BootstrapAction::LoadExports
            | BootstrapAction::GetDomain
            | BootstrapAction::AttachThread
            | BootstrapAction::HydrateMetadata
            | BootstrapAction::CheckIdentity => {
                let (event, attached) = deps.call(action, || now);
                guard = guard.or(attached);
                event
            }
            BootstrapAction::PollReadiness => deps.poll_readiness(|| now),
            BootstrapAction::Sleep(pause) => {
                now += pause;
                BootstrapEvent::Slept
            }
            BootstrapAction::ResolveScheduler => {
                let event = deps.resolve_scheduler();
                if let BootstrapEvent::Scheduler(Ok(method)) = &event {
                    resolved = Some(method.clone());
                }
                event
            }
            BootstrapAction::ReadSlot => {
                deps.read_slot(resolved.as_ref().expect("resolved before its slot is read"))
            }
            BootstrapAction::PublishContext(original) => {
                assert_eq!(original, 0x77);
                BootstrapEvent::Reply(outside.published, now)
            }
            BootstrapAction::InstallHook => BootstrapEvent::Reply(outside.installed, now),
            BootstrapAction::PublishHandoff => BootstrapEvent::Reply(outside.handed_off, now),
            BootstrapAction::Finish(end) => {
                assert_eq!(end.release, guard.is_some());
                assert_eq!(ladder.rung, Rung::Over);
                return (actions, end, deps.api.calls.into_inner());
            }
        };
        action = ladder.next(event);
    }
}

#[test]
fn ladder_is_climbed_in_order() {
    let (actions, end, calls) = run("", Some(scheduler_method()), ALL_WELL);
    assert_eq!(
        actions,
        vec![
            BootstrapAction::QueryImage,
            BootstrapAction::LoadExports,
            BootstrapAction::PollReadiness,
            BootstrapAction::Sleep(50),
            BootstrapAction::PollReadiness,
            BootstrapAction::Sleep(50),
            BootstrapAction::PollReadiness,
            BootstrapAction::GetDomain,
            BootstrapAction::AttachThread,
            BootstrapAction::HydrateMetadata,
            BootstrapAction::CheckIdentity,
            BootstrapAction::ResolveScheduler,
            BootstrapAction::ReadSlot,
            BootstrapAction::PublishContext(0x77),
            BootstrapAction::InstallHook,
            BootstrapAction::PublishHandoff,
            BootstrapAction::Finish(end),
        ]
    );
    assert_eq!(
        end,
        BootstrapEnd {
            close_gate: false,
            tear_down: false,
            release: true,
            published: true
        }
    );
    assert_eq!(
        calls,
        vec!["image", "exports", "domain", "attach", "hydrate", "identity"]
    );
}

#[test]
fn any_failed_call_ends_the_bootstrap_closed() {
    let ladder = ["image", "exports", "domain", "attach", "hydrate", "identity"];
    for (index, name) in ladder.into_iter().enumerate() {
        let (_, end, calls) = run(name, Some(scheduler_method()), ALL_WELL);
        assert!(end.close_gate && !end.tear_down && !end.published, "{name}");
        assert_eq!(end.release, index > 3, "only an attachment is given back");
        assert_eq!(calls, ladder[..=index], "nothing after {name}");
    }
}

#[test]
fn drifted_scheduler_target_fails_before_the_slot_is_touched() {
    let mut drifted = scheduler_method();
    drifted.is_static = true;
    assert!(!validate_scheduler_method(&drifted));
    assert!(validate_scheduler_method(&scheduler_method()));
    for method in [Some(drifted), None] {
        let (actions, end, _) = run("", method, ALL_WELL);
        assert!(!actions.contains(&BootstrapAction::ReadSlot));
        assert!(end.close_gate && end.release && !end.published);
    }
}

#[test]
fn late_failures_tear_the_application_down() {
    let (_, end, _) = run(
        "",
        Some(scheduler_method()),
        Outside {
            word: 0,
            ..ALL_WELL
        },
    );
    assert!(end.close_gate && !end.tear_down, "a null slot, before the application");
    let (_, end, _) = run(
        "",
        Some(scheduler_method()),
        Outside {
            published: false,
            ..ALL_WELL
        },
    );
    assert!(end.tear_down && !end.close_gate, "the context belongs to the first bootstrap");
    for outside in [
        Outside {
            installed: false,
            ..ALL_WELL
        },
        Outside {
            handed_off: false,
            ..ALL_WELL
        },
    ] {
        let (_, end, _) = run("", Some(scheduler_method()), outside);
        assert!(end.tear_down && end.close_gate && end.release && !end.published);
    }
}

#[test]
fn readiness_deadline_ends_the_bootstrap_before_the_domain() {
    let (mut ladder, _): (Bootstrap, BootstrapAction) = run_bootstrap_with_readiness_wait(100, 70);
    assert_eq!(
        ladder.next(BootstrapEvent::Reply(true, 0)),
        BootstrapAction::LoadExports
    );
    assert_eq!(
        ladder.next(BootstrapEvent::Reply(true, 40)),
        BootstrapAction::PollReadiness
    );
    assert_eq!(
        ladder.next(BootstrapEvent::Ready(Ok(false), 50)),
        BootstrapAction::Sleep(70)
    );
    assert_eq!(ladder.next(BootstrapEvent::Slept), BootstrapAction::PollReadiness);
    assert_eq!(
        ladder.next(BootstrapEvent::Ready(Ok(false), 120)),
        BootstrapAction::Sleep(20)
    );
    assert_eq!(ladder.next(BootstrapEvent::Slept), BootstrapAction::PollReadiness);
    assert!(matches!(
        ladder.next(BootstrapEvent::Ready(Ok(false), 140)),
        BootstrapAction::Finish(BootstrapEnd {
            close_gate: true,
            tear_down: false,
            release: false,
            published: false
        })
    ));
}

#[test]
fn production_wait_is_the_declared_one() {
    let (ladder, action) = run_bootstrap();
    assert_eq!(action, BootstrapAction::QueryImage);
    assert_eq!(ladder.deadline, CRIWARE_POLL_DEADLINE);
    assert_eq!(ladder.backoff, CRIWARE_POLL_BACKOFF);
}

fn probe(fails: &'static str) -> (bool, Vec<&'static str>, Vec<u64>) {
    let mut deps = BootstrapDeps::new(
        Platform {
            fails,
            calls: RefCell::new(Vec::new()),
        },
        Warmup(Cell::new(0)),
        Resolver(None, 0),
        DataRoot::new("/tmp".to_owned()),
        RuntimeConfig::default(),
    );
    let mut slept = Vec::new();
    let (mut probe, mut action) = run_bootstrap_timing_probe_with_delay(9);
    loop {
        let event = match action {
            ProbeAction::Call(call) => deps.call(call, || 0).0,
            ProbeAction::Sleep(delay) => {
                assert_eq!(*deps.api.calls.borrow(), vec!["image", "exports"]);
                slept.push(delay);
                BootstrapEvent::Slept
            }
            ProbeAction::Finish(done) => {
                assert_eq!(probe.rung, ProbeRung::Over);
                return (done, deps.api.calls.into_inner(), slept);
            }
        };
        action = probe.next(event);
    }
}

#[test]
fn timing_probe_asks_for_the_domain_once_and_stops() {
    assert_eq!(probe(""), (true, vec!["image", "exports", "domain"], vec![9]));
    assert_eq!(probe("domain"), (false, vec!["image", "exports", "domain"], vec![9]));
    assert_eq!(probe("exports"), (false, vec!["image", "exports"], vec![]));
    assert_eq!(probe("image"), (false, vec!["image"], vec![]));
    let (production, first) = run_bootstrap_timing_probe();
    assert_eq!(production.delay, TIMING_PROBE_DELAY);
    assert_eq!(first, ProbeAction::Call(BootstrapAction::QueryImage));
}
