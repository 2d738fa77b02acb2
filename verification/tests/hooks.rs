use shiny_song_tools::backend::{MethodResolver, ResolvedMethod};
use shiny_song_tools::error::{HookError, PluginError, RestoreError};
use shiny_song_tools::gate::{GateBoard, PluginGate, RuntimeGate};
use shiny_song_tools::hook::{
    install_or_roll_back, settle, HookBuilder, HookSite, HookTarget, InstalledHook, Settlement,
};
use shiny_song_tools::method_slot::{MethodPointerSlot, MethodRef, SlotMemory, TargetId};
use shiny_song_tools::original::OriginalPhase;
use std::cell::{Cell, RefCell};
use std::rc::Rc;
use std::sync::Arc;

const ORIGINAL: usize = 0x1000;
const REPLACEMENT: usize = 0x2000;

struct MockTarget;

impl HookTarget for MockTarget {
    fn target() -> TargetId {
        TargetId {
            assembly: "MockAssembly.dll",
            namespace: "MockNamespace",
            class: "MockClass",
            method: "MockMethod",
            param_count: 1,
            is_static: false,
            return_type: "void",
            parameter_types: &["int"],
        }
    }
}

fn mock_method() -> MethodRef {
    MethodRef {
        assembly: "MockAssembly.dll".to_owned(),
        namespace: "MockNamespace".to_owned(),
        class: "MockClass".to_owned(),
        method: "MockMethod".to_owned(),
        param_count: 1,
        is_static: false,
        return_type: "void".to_owned(),
        parameter_types: vec!["int".to_owned()],
        is_generic: false,
        is_inflated: false,
        method_info: 0x10,
        method_pointer_slot: 0x10,
    }
}

/// A word that can be made to lose what is swapped in.
#[derive(Clone)]
struct Word {
    value: Rc<Cell<usize>>,
    deaf: Rc<Cell<bool>>,
    exchanges: Rc<RefCell<Vec<(usize, usize)>>>,
}

impl Word {
    fn holding(value: usize) -> Self {
        Word {
            value: Rc::new(Cell::new(value)),
            deaf: Rc::new(Cell::new(false)),
            exchanges: Rc::new(RefCell::new(Vec::new())),
        }
    }
}

impl SlotMemory for Word {
    fn read(&mut self) -> Option<usize> {
        Some(self.value.get())
    }
    fn compare_exchange(&mut self, expected: usize, new: usize) -> Result<(), usize> {
        self.exchanges.borrow_mut().push((expected, new));
        if self.value.get() != expected && !self.deaf.get() {
            return Err(self.value.get());
        }
        if !self.deaf.get() {
            self.value.set(new);
        }
        Ok(())
    }
}

struct MockResolver {
    method: Result<MethodRef, HookError>,
    word: Word,
    asked: Vec<&'static str>,
}

impl MethodResolver for MockResolver {
    type Memory = Word;

    fn resolve(&mut self, target: &TargetId) -> Result<MethodRef, HookError> {
        assert_eq!(target, &MockTarget::target());
        self.asked.push("resolve");
        match &self.method {
            Ok(method) => Ok(method.clone()),
            Err(_) => Err(HookError::TargetUnavailable),
        }
    }

    fn slot_memory(&mut self, method: &MethodRef) -> Word {
        assert_eq!(method, &mock_method());
        self.asked.push("slot");
        self.word.clone()
    }
}

struct Setup {
    board: GateBoard,
    runtime: RuntimeGate,
    plugin: PluginGate,
    site: HookSite<u32>,
    resolver: Option<MockResolver>,
    word: Word,
}

fn resolving(method: Result<MethodRef, HookError>, word: &Word) -> Option<MockResolver> {
    Some(MockResolver {
        method,
        word: word.clone(),
        asked: Vec::new(),
    })
}

fn setup() -> Setup {
    let mut board = GateBoard::new();
    let runtime = RuntimeGate::new(&mut board);
    let plugin = PluginGate::new(&mut board);
    let word = Word::holding(ORIGINAL);
    Setup {
        board,
        runtime,
        plugin,
        site: HookSite::new(),
        resolver: resolving(Ok(mock_method()), &word),
        word,
    }
}

fn install(setup: &mut Setup) -> Result<InstalledHook<Word>, PluginError> {
    let published = HookBuilder::new(setup.runtime.reader(), setup.plugin.reader())
        .container(Arc::new(7u32))
        .handler(&mut setup.site, REPLACEMENT)
        .expect("publish");
    published.install::<MockTarget, MockResolver>(&mut setup.site, &mut setup.resolver)
}

fn open_gates(setup: &mut Setup) {
    assert!(setup.runtime.open(&mut setup.board));
    setup.plugin.open(&mut setup.board);
}

/// Dispatches with a handler that adds one to what the original gives.
fn dispatch(setup: &Setup, calls: &RefCell<Vec<&'static str>>) -> usize {
    setup.site.dispatch(
        &setup.board,
        |original: usize| {
            calls.borrow_mut().push("passthrough");
            original
        },
        || {
            calls.borrow_mut().push("fallback");
            0
        },
        |mut callback| {
            calls.borrow_mut().push("handler");
            assert_eq!(*callback.container(), 7);
            let _ = callback.cap();
            let first = callback.call_original(|original| original + 1);
            assert_eq!(callback.call_original(|original| original + 2), None);
            callback.finish(first)
        },
    )
}

#[test]
fn installed_hook_dispatches_through_the_handler() {
    let mut setup = setup();
    let calls = RefCell::new(Vec::new());
    assert_eq!(dispatch(&setup, &calls), 0, "not published");
    let hook = install(&mut setup).expect("install");
    assert!(setup.site.is_published());
    assert!(hook.is_installed(&setup.site));
    assert_eq!(setup.word.value.get(), REPLACEMENT);
    assert!(!setup.site.is_dispatchable(&setup.board));
    assert_eq!(dispatch(&setup, &calls), ORIGINAL, "gates closed");
    open_gates(&mut setup);
    assert!(setup.site.is_dispatchable(&setup.board));
    assert_eq!(dispatch(&setup, &calls), ORIGINAL + 1);
    setup.runtime.close(&mut setup.board);
    assert_eq!(dispatch(&setup, &calls), ORIGINAL, "gate closed again");
    assert_eq!(
        *calls.borrow(),
        vec!["fallback", "passthrough", "handler", "passthrough"]
    );
}

#[test]
fn handler_that_does_not_call_the_original_is_compensated() {
    let mut setup = setup();
    let _hook = install(&mut setup).expect("install");
    open_gates(&mut setup);
    let result = setup.site.dispatch(
        &setup.board,
        |original: usize| original + 5,
        || 0,
        |callback| callback.finish(Some(99)),
    );
    assert_eq!(result, ORIGINAL + 5, "the original is called exactly once");
}

#[test]
fn handler_that_panicked_after_the_original_falls_back() {
    let mut setup = setup();
    let _hook = install(&mut setup).expect("install");
    open_gates(&mut setup);
    let result = setup.site.dispatch(
        &setup.board,
        |_: usize| panic!("the original was called already"),
        || 77,
        |mut callback| {
            let _ = callback.call_original(|original| original);
            callback.finish(None)
        },
    );
    assert_eq!(result, 77);
}

#[test]
fn return_values_settle_by_phase() {
    assert_eq!(
        settle(OriginalPhase::BeforeOriginal, true),
        Settlement::Passthrough
    );
    assert_eq!(
        settle(OriginalPhase::BeforeOriginal, false),
        Settlement::Passthrough
    );
    assert_eq!(settle(OriginalPhase::AfterOriginal, true), Settlement::Handler);
    assert_eq!(
        settle(OriginalPhase::AfterOriginal, false),
        Settlement::Fallback
    );
}

#[test]
fn resolver_is_asked_once_and_for_a_slot_only_of_a_valid_method() {
    let mut setup = setup();
    let _hook = install(&mut setup).expect("install");
    assert_eq!(setup.resolver.expect("resolver").asked, vec!["resolve", "slot"]);
    assert_eq!(*setup.word.exchanges.borrow(), vec![(ORIGINAL, REPLACEMENT)]);

    let mut drifted = self::setup();
    let mut method = mock_method();
    method.is_generic = true;
    drifted.resolver = resolving(Ok(method), &drifted.word);
    assert!(install(&mut drifted).is_err());
    assert_eq!(drifted.resolver.expect("resolver").asked, vec!["resolve"]);
    assert!(drifted.word.exchanges.borrow().is_empty());
}

#[test]
fn hook_knows_its_site() {
    let mut setup = setup();
    let hook = install(&mut setup).expect("install");
    assert!(hook.site(&setup.site).is_some_and(|site| site.is_published()));
    assert!(hook.site(&HookSite::<u32>::new()).is_none());
    let mut other = HookSite::new();
    HookBuilder::new(setup.runtime.reader(), setup.plugin.reader())
        .container(Arc::new(8u32))
        .handler(&mut other, 0x3000)
        .expect("publish");
    assert!(hook.site(&other).is_none());
}

#[test]
fn site_is_published_once_for_the_process() {
    let mut setup = setup();
    let _hook = install(&mut setup).expect("install");
    let again = HookBuilder::new(setup.runtime.reader(), setup.plugin.reader())
        .container(Arc::new(8u32))
        .handler(&mut setup.site, 0x3000);
    assert!(matches!(again, Err(HookError::SiteAlreadyRegistered)));
}

#[test]
fn installation_reports_what_failed() {
    let mut unavailable = setup();
    unavailable.resolver = resolving(Err(HookError::TargetUnavailable), &unavailable.word);
    assert!(matches!(
        install(&mut unavailable),
        Err(PluginError::Hook(HookError::TargetUnavailable))
    ));

    let mut drifted = setup();
    let mut method = mock_method();
    method.is_static = true;
    drifted.resolver = resolving(Ok(method), &drifted.word);
    assert!(matches!(
        install(&mut drifted),
        Err(PluginError::Hook(HookError::SignatureMismatch))
    ));
    assert_eq!(drifted.word.value.get(), ORIGINAL);

    let mut null = setup();
    null.word.value.set(0);
    assert!(matches!(
        install(&mut null),
        Err(PluginError::Hook(HookError::SlotMalformed))
    ));

    let mut deaf = setup();
    deaf.word.deaf.set(true);
    assert!(matches!(
        install(&mut deaf),
        Err(PluginError::Hook(HookError::InstallationFailed))
    ));
    assert_eq!(
        *deaf.word.exchanges.borrow(),
        vec![(ORIGINAL, REPLACEMENT), (REPLACEMENT, ORIGINAL)],
        "an unconfirmed swap is rolled back once"
    );
    assert!(!deaf.site.is_dispatchable(&deaf.board));

    let mut lonely = setup();
    let published = HookBuilder::new(lonely.runtime.reader(), lonely.plugin.reader())
        .container(Arc::new(7u32))
        .handler(&mut lonely.site, REPLACEMENT)
        .expect("publish");
    assert!(matches!(
        published.install::<MockTarget, MockResolver>(&mut lonely.site, &mut None),
        Err(PluginError::Message("method resolver unavailable"))
    ));
}

#[test]
fn restore_gives_the_slot_back_once() {
    let mut setup = setup();
    let mut hook = install(&mut setup).expect("install");
    assert_eq!(hook.restore(&mut setup.site), Ok(()));
    assert_eq!(setup.word.value.get(), ORIGINAL);
    assert!(!hook.is_installed(&setup.site));
    assert_eq!(
        hook.restore(&mut setup.site),
        Err(HookError::OwnershipDrift)
    );
    assert_eq!(hook.restore_for_owner(&mut setup.site), Ok(()));
    assert_eq!(
        *setup.word.exchanges.borrow(),
        vec![(ORIGINAL, REPLACEMENT), (REPLACEMENT, ORIGINAL)],
        "a hook that is not installed leaves the slot alone"
    );
    assert_eq!(setup.word.value.get(), ORIGINAL);
}

#[test]
fn owner_restore_reports_lost_ownership() {
    let mut setup = setup();
    let mut hook = install(&mut setup).expect("install");
    setup.word.value.set(0x9999);
    assert_eq!(
        hook.restore_for_owner(&mut setup.site),
        Err(RestoreError::OwnershipLost)
    );
    assert_eq!(setup.word.value.get(), 0x9999, "never overwritten");
    assert!(hook.is_installed(&setup.site), "only a confirmed restore clears it");
    assert_eq!(
        hook.restore(&mut setup.site),
        Err(HookError::OwnershipDrift)
    );
    assert!(hook.is_installed(&setup.site));
    assert_eq!(setup.word.value.get(), 0x9999);
    setup.word.value.set(REPLACEMENT);
    assert_eq!(hook.restore_for_owner(&mut setup.site), Ok(()));
    assert!(!hook.is_installed(&setup.site));
}

#[test]
fn unconfirmed_restore_stays_observable() {
    let mut setup = setup();
    let mut hook = install(&mut setup).expect("install");
    setup.word.deaf.set(true);
    assert_eq!(
        hook.restore_for_owner(&mut setup.site),
        Err(RestoreError::Failed)
    );
    assert!(hook.is_installed(&setup.site));
    assert_eq!(
        hook.restore(&mut setup.site),
        Err(HookError::InstallationFailed)
    );
    assert!(hook.is_installed(&setup.site));
}

#[test]
fn confirmed_install_needs_no_roll_back() {
    let word = Word::holding(ORIGINAL);
    let mut slot = match MethodPointerSlot::bind(word.clone()) {
        Ok(slot) => slot,
        Err(error) => panic!("bind: {error:?}"),
    };
    assert_eq!(install_or_roll_back(&mut slot, REPLACEMENT), Ok(()));
    assert_eq!(word.value.get(), REPLACEMENT);
    assert_eq!(*word.exchanges.borrow(), vec![(ORIGINAL, REPLACEMENT)]);
    let resolved = ResolvedMethod::new(mock_method(), word);
    assert_eq!(resolved.method.method, "MockMethod");
}
