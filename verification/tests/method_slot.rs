use shiny_song_tools::error::HookError;
use shiny_song_tools::method_slot::{
    original_of, read_back, MethodPointerSlot, MethodRef, RawSlotMemory, SlotMemory, TargetId,
};
use std::sync::atomic::{AtomicUsize, Ordering};
use std::sync::Arc;

fn string_lookup() -> TargetId {
    TargetId {
        assembly: "Game.dll",
        namespace: "Game",
        class: "Localizer",
        method: "GetText",
        param_count: 2,
        is_static: false,
        return_type: "string",
        parameter_types: &["string", "int"],
    }
}

fn string_lookup_ref() -> MethodRef {
    MethodRef {
        assembly: "Game.dll".to_owned(),
        namespace: "Game".to_owned(),
        class: "Localizer".to_owned(),
        method: "GetText".to_owned(),
        param_count: 2,
        is_static: false,
        return_type: "string".to_owned(),
        parameter_types: vec!["string".to_owned(), "int".to_owned()],
        is_generic: false,
        is_inflated: false,
        method_info: 0x1000,
        method_pointer_slot: 0x1000,
    }
}

#[test]
fn target_identity_includes_the_complete_managed_signature() {
    let exact = string_lookup_ref();
    assert!(exact.matches_target(&string_lookup()));

    let mut wrong_return = exact.clone();
    wrong_return.return_type = "object".to_owned();
    assert!(!wrong_return.matches_target(&string_lookup()));

    let mut wrong_static = exact.clone();
    wrong_static.is_static = true;
    assert!(!wrong_static.matches_target(&string_lookup()));

    let mut wrong_parameters = exact.clone();
    wrong_parameters.parameter_types.swap(0, 1);
    assert!(!wrong_parameters.matches_target(&string_lookup()));

    let mut generic = exact;
    generic.is_generic = true;
    assert!(!generic.matches_target(&string_lookup()));
}

#[test]
fn every_part_of_the_identity_counts() {
    let exact = string_lookup_ref();
    let mut wrong = exact.clone();
    wrong.assembly = "Other.dll".to_owned();
    assert!(!wrong.matches_target(&string_lookup()));
    let mut wrong = exact.clone();
    wrong.namespace = "Other".to_owned();
    assert!(!wrong.matches_target(&string_lookup()));
    let mut wrong = exact.clone();
    wrong.class = "Other".to_owned();
    assert!(!wrong.matches_target(&string_lookup()));
    let mut wrong = exact.clone();
    wrong.method = "Other".to_owned();
    assert!(!wrong.matches_target(&string_lookup()));
    let mut wrong = exact.clone();
    wrong.param_count = 3;
    assert!(!wrong.matches_target(&string_lookup()));
    let mut wrong = exact.clone();
    wrong.parameter_types.pop();
    assert!(!wrong.matches_target(&string_lookup()));
    let mut wrong = exact.clone();
    wrong.is_inflated = true;
    assert!(!wrong.matches_target(&string_lookup()));
    assert!(string_lookup().matches(&exact));
}

/// In-memory slot that others can write to.
struct MockSlot(Arc<AtomicUsize>);

impl MockSlot {
    fn holding(word: usize) -> Self {
        MockSlot(Arc::new(AtomicUsize::new(word)))
    }
}

impl SlotMemory for MockSlot {
    fn read(&mut self) -> Option<usize> {
        Some(self.0.load(Ordering::Acquire))
    }
    fn compare_exchange(&mut self, expected: usize, new: usize) -> Result<(), usize> {
        self.0
            .compare_exchange(expected, new, Ordering::AcqRel, Ordering::Acquire)
            .map(drop)
    }
}

fn bind(word: usize) -> MethodPointerSlot<MockSlot> {
    match MethodPointerSlot::bind(MockSlot::holding(word)) {
        Ok(slot) => slot,
        Err(error) => panic!("bind: {error:?}"),
    }
}

#[test]
fn cas_install_readback_confirms_replacement() {
    let mut slot = bind(0x1000);
    let replacement = 0xfeed_face_usize;
    slot.install(replacement).expect("install");
    assert_eq!(slot.current(), Some(replacement));
}

#[test]
fn install_conflict_reports_slot_conflict_without_write() {
    let word = Arc::new(AtomicUsize::new(0x1000));
    let mut slot = match MethodPointerSlot::bind(MockSlot(Arc::clone(&word))) {
        Ok(slot) => slot,
        Err(error) => panic!("bind: {error:?}"),
    };
    // Third party writes an unknown value first.
    word.store(0x999, Ordering::Release);
    assert!(matches!(slot.install(0xabc), Err(HookError::SlotConflict)));
    assert_eq!(slot.current(), Some(0x999), "conflict must not write");
}

#[test]
fn restore_is_ownership_aware() {
    let mut slot = bind(0x1000);
    let original = slot.original();
    slot.install(0xabc).expect("install");
    slot.restore(0xabc).expect("restore");
    assert_eq!(slot.current(), Some(original));

    // Restoring again without reinstalling reports drift (slot no longer
    // holds the replacement) and does not write.
    assert!(matches!(
        slot.restore(0xabc),
        Err(HookError::OwnershipDrift)
    ));
    assert_eq!(slot.current(), Some(original));
}

#[test]
fn bind_rejects_null_slots_but_accepts_word_unaligned_code_pointers() {
    assert!(matches!(
        MethodPointerSlot::bind(MockSlot::holding(0)),
        Err(HookError::SlotMalformed)
    ));
    // arm64 code pointers are only 4-byte aligned; the stored value is not
    // required to satisfy the slot word's alignment.
    assert!(MethodPointerSlot::bind(MockSlot::holding(0x102465e64)).is_ok());
}

/// A slot whose readback shows something else than what was swapped in.
struct ForgetfulSlot {
    word: usize,
    swaps: Arc<AtomicUsize>,
}

impl SlotMemory for ForgetfulSlot {
    fn read(&mut self) -> Option<usize> {
        Some(self.word)
    }
    fn compare_exchange(&mut self, _expected: usize, _new: usize) -> Result<(), usize> {
        self.swaps.fetch_add(1, Ordering::AcqRel);
        Ok(())
    }
}

#[test]
fn unconfirmed_swap_is_a_failed_installation() {
    let swaps = Arc::new(AtomicUsize::new(0));
    let memory = ForgetfulSlot {
        word: 0x1000,
        swaps: Arc::clone(&swaps),
    };
    let mut slot = match MethodPointerSlot::bind(memory) {
        Ok(slot) => slot,
        Err(error) => panic!("bind: {error:?}"),
    };
    assert_eq!(swaps.load(Ordering::Acquire), 0, "binding only reads");
    assert_eq!(slot.install(0xabc), Err(HookError::InstallationFailed));
    assert_eq!(swaps.load(Ordering::Acquire), 1);
}

#[test]
fn raw_slot_swaps_the_word_itself() {
    let word: &'static AtomicUsize = Box::leak(Box::new(AtomicUsize::new(0x4000)));
    let mut slot = match MethodPointerSlot::bind(RawSlotMemory::from_word(word)) {
        Ok(slot) => slot,
        Err(error) => panic!("bind: {error:?}"),
    };
    assert_eq!(slot.original(), 0x4000);
    slot.install(0x5000).expect("install");
    assert_eq!(word.load(Ordering::Acquire), 0x5000);
    slot.restore(0x5000).expect("restore");
    assert_eq!(word.load(Ordering::Acquire), 0x4000);
}

#[test]
fn slot_addresses_are_aligned_and_not_null() {
    assert!(!RawSlotMemory::is_slot_address(0, 8));
    assert!(!RawSlotMemory::is_slot_address(0x1004, 8));
    assert!(RawSlotMemory::is_slot_address(0x1008, 8));
}

#[test]
fn words_bind_and_read_back_as_stated() {
    assert_eq!(original_of(None), Err(HookError::SlotMalformed));
    assert_eq!(original_of(Some(0)), Err(HookError::SlotMalformed));
    assert_eq!(original_of(Some(7)), Ok(7));
    assert_eq!(read_back(Some(7), 7), Ok(()));
    assert_eq!(read_back(Some(8), 7), Err(HookError::InstallationFailed));
    assert_eq!(read_back(None, 7), Err(HookError::InstallationFailed));
}
