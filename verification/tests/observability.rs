use shiny_song_tools::compact_codes;
use shiny_song_tools::event::{
    CallbackObservability, CompactEvent, CompactEventCode, CompactLevel, CompactOwnerId,
    CompactSiteId,
};
use shiny_song_tools::observability::{
    code_category, drain_available, ObservabilityRoot, CATEGORY, DRAIN_LIMIT, SUBSYSTEM,
};

#[test]
fn emit_and_drain_preserves_fifo_and_counts_drops() {
    let mut obs = CallbackObservability::with_capacity(2);
    let e = CompactEvent::new(CompactEventCode(1), CompactLevel::Info);
    assert!(obs.try_emit(e.args(1, 0)));
    assert!(obs.try_emit(e.args(2, 0)));
    assert!(!obs.try_emit(e.args(3, 0)), "queue full is reported");
    assert_eq!(obs.dropped(), 1);
    let drained: Vec<_> = obs.drain(10);
    assert_eq!(drained.len(), 2);
    assert_eq!(drained[0].arg0, 1);
    assert_eq!(drained[1].arg0, 2);
    assert_eq!(obs.drain(10).len(), 0);
}

#[test]
fn unknown_codes_degrade_without_failing() {
    let (target, message) = code_category(CompactEventCode(u16::MAX));
    assert_eq!(target, "runtime");
    assert_eq!(message, "unclassified compact event");
}

#[test]
fn every_code_has_its_domain_and_message() {
    let expected = [
        (compact_codes::SCHED_FRAME_ENTERED, "scheduler", "scheduler frame entered"),
        (compact_codes::SCHED_ORIGINAL_CALLED, "hook", "original LateUpdate entered"),
        (compact_codes::SCHED_ORIGINAL_RETURNED, "hook", "original LateUpdate returned"),
        (
            compact_codes::SCHED_NO_PUBLISHED_CONTEXT,
            "scheduler",
            "callback reached without published context",
        ),
        (
            compact_codes::SCHED_GLOBAL_FAILURE,
            "scheduler",
            "scheduler global failure published",
        ),
        (
            compact_codes::SCHED_THREAD_MISMATCH,
            "scheduler",
            "scheduler thread identity mismatch",
        ),
        (
            compact_codes::FFI_ENTRY_PANICKED,
            "runtime",
            "entry panicked; startup aborted",
        ),
        (compact_codes::SCHED_FRAME_DONE, "scheduler", "scheduler frame done"),
    ];
    for (code, domain, message) in expected {
        assert_eq!(code_category(CompactEventCode(code)), (domain, message));
    }
    assert_eq!(compact_codes::SCHED_GLOBAL_FAILURE, 5);
}

#[test]
fn drained_events_reach_the_installed_dispatch_with_stable_fields() {
    let mut queue = CallbackObservability::with_capacity(8);
    let event = CompactEvent::new(
        CompactEventCode(compact_codes::SCHED_GLOBAL_FAILURE),
        CompactLevel::Error,
    )
    .owner(CompactOwnerId(3))
    .site(CompactSiteId(1))
    .args(9, 0);
    assert!(queue.try_emit(event));
    let drained = drain_available(&mut queue);
    assert_eq!(drained.len(), 1);
    let record = drained[0];
    let text = format!(
        "{} code={} owner={} domain={}",
        record.message, record.code, record.owner, record.domain
    );
    assert!(text.contains("scheduler global failure published"), "{text}");
    assert!(text.contains("code=5"), "{text}");
    assert!(text.contains("owner=3"), "{text}");
    assert_eq!(record.message, "scheduler global failure published");
    assert_eq!(record.domain, "scheduler");
    assert_eq!(record.code, 5);
    assert_eq!(record.owner, 3);
    assert_eq!(record.site, 1);
    assert_eq!((record.arg0, record.arg1), (9, 0));
    assert_eq!(record.level, CompactLevel::Error);
}

#[test]
fn one_drain_is_bounded() {
    let mut queue = CallbackObservability::new();
    let event = CompactEvent::new(CompactEventCode(1), CompactLevel::Info);
    for index in 0..DRAIN_LIMIT as u64 + 5 {
        assert!(queue.try_emit(event.args(index, 0)));
    }
    assert_eq!(drain_available(&mut queue).len(), DRAIN_LIMIT);
    let rest = drain_available(&mut queue);
    assert_eq!(rest.len(), 5);
    assert_eq!(rest[0].arg0, DRAIN_LIMIT as u64);
    assert_eq!(queue.dropped(), 0);
}

#[test]
fn levels_and_names_are_stable() {
    assert_eq!(CompactLevel::Info.as_u8(), 0);
    assert_eq!(CompactLevel::Warn.as_u8(), 1);
    assert_eq!(CompactLevel::Error.as_u8(), 2);
    assert_eq!(SUBSYSTEM, "com.shinysongtools.runtime");
    assert_eq!(CATEGORY, "runtime");
}

#[test]
fn uptime_counts_from_creation() {
    let root = ObservabilityRoot::new(1_000);
    assert_eq!(root.uptime(1_250), 250);
}
