use shiny_song_tools::arm64::{b_enc, build_trampoline, plan_op, plan_size, Plan, Window, NOP, PACIBSP};
use shiny_song_tools::entry_patch::{
    confirm_patch, decode_words, encode_words, entry_patch_bytes, page_size, remap_site,
    staged_page, sync_range, EntryPatchMemory, EntryPatchSite, RemapStep,
};
use shiny_song_tools::error::HookError;
use shiny_song_tools::method_slot::{MethodPointerSlot, MethodRef, SlotMemory};
use std::cell::RefCell;
use std::collections::HashMap;
use std::rc::Rc;

const ADD_X0_X1: u32 = 0x8B01_0000; // add x0, x0, x1
const RET: u32 = 0xD65F_03C0;

const ENTRY: usize = 0x1_0000_0000;
const TRAMPOLINE: usize = 0x1_2000_0000;
const REPLACEMENT: usize = 0x7_0000_0000;
const HELPER: usize = 0x1_0100_0000;
const RETURN_TO: u64 = 0xFFFF_FFFF_FFFF_FFF0;

/// The code memory of a machine, by address.
type Code = Rc<RefCell<HashMap<u64, u32>>>;

fn map_words(code: &Code, base: usize, words: &[u32]) {
    for (index, &word) in words.iter().enumerate() {
        code.borrow_mut().insert(base as u64 + index as u64 * 4, word);
    }
}

fn signed(value: u32, bits: u32) -> i64 {
    let shift = 64 - bits;
    ((i64::from(value)) << shift) >> shift
}

/// Runs the function at `addr` with two arguments. Calls of `REPLACEMENT` and
/// of `HELPER` are answered by the host: `2a + b` and `2a`.
fn call(code: &Code, addr: usize, a: i64, b: i64) -> i64 {
    let mut x = [0u64; 32];
    let mut stack: HashMap<u64, u64> = HashMap::new();
    let mut sp: u64 = 0x8000_0000;
    x[0] = a as u64;
    x[1] = b as u64;
    x[30] = RETURN_TO;
    let mut pc = addr as u64;
    for _ in 0..1000 {
        if pc == RETURN_TO {
            return x[0] as i64;
        }
        if pc == REPLACEMENT as u64 {
            x[0] = x[0].wrapping_mul(2).wrapping_add(x[1]);
            pc = x[30];
            continue;
        }
        if pc == HELPER as u64 {
            x[0] = x[0].wrapping_mul(2);
            pc = x[30];
            continue;
        }
        let memory = code.borrow();
        let op = *memory.get(&pc).expect("mapped code");
        let rd = (op & 0x1F) as usize;
        let jump = |imm: i64| (pc as i64 + imm * 4) as u64;
        let mut next = pc + 4;
        if op == ADD_X0_X1 {
            x[0] = x[0].wrapping_add(x[1]);
        } else if op == RET {
            next = x[30];
        } else if op & 0xFC00_0000 == 0x1400_0000 {
            next = jump(signed(op & 0x03FF_FFFF, 26));
        } else if op & 0xFC00_0000 == 0x9400_0000 {
            x[30] = pc + 4;
            next = jump(signed(op & 0x03FF_FFFF, 26));
        } else if op & 0xFF00_0000 == 0xB400_0000 || op & 0xFF00_0000 == 0xB500_0000 {
            let zero = x[rd] == 0;
            if zero == (op & 0x0100_0000 == 0) {
                next = jump(signed((op >> 5) & 0x7FFFF, 19));
            }
        } else if op & 0xFFE0_0000 == 0xD280_0000 {
            x[rd] = u64::from((op >> 5) & 0xFFFF);
        } else if op & 0xFF80_0000 == 0xF280_0000 {
            let lane = ((op >> 21) & 3) * 16;
            x[rd] = (x[rd] & !(0xFFFF << lane)) | (u64::from((op >> 5) & 0xFFFF) << lane);
        } else if op & 0xFF00_0000 == 0x5800_0000 {
            let at = jump(signed((op >> 5) & 0x7FFFF, 19));
            let low = u64::from(memory[&at]);
            let high = u64::from(memory[&(at + 4)]);
            x[rd] = high << 32 | low;
        } else if op & 0xFFFF_FC1F == 0xD61F_0000 {
            next = x[((op >> 5) & 0x1F) as usize];
        } else if op & 0xFFFF_FC1F == 0xD63F_0000 {
            x[30] = pc + 4;
            next = x[((op >> 5) & 0x1F) as usize];
        } else if op == 0xA9BF_7BFD {
            sp -= 16;
            stack.insert(sp, x[29]);
            stack.insert(sp + 8, x[30]);
        } else if op == 0xA8C1_7BFD {
            x[29] = stack[&sp];
            x[30] = stack[&(sp + 8)];
            sp += 16;
        } else {
            panic!("unexpected instruction {op:#x} at {pc:#x}");
        }
        pc = next;
    }
    panic!("the machine does not come back");
}

fn method_at(entry: usize, slot: usize) -> MethodRef {
    MethodRef {
        assembly: "test".to_owned(),
        namespace: "test".to_owned(),
        class: "test".to_owned(),
        method: "test".to_owned(),
        param_count: 2,
        is_static: false,
        return_type: "long".to_owned(),
        parameter_types: vec!["long".to_owned(), "long".to_owned()],
        is_generic: false,
        is_inflated: false,
        method_info: entry,
        method_pointer_slot: slot,
    }
}

/// The patched entry behind the slot protocol, over the machine's code.
struct PatchedEntry {
    memory: RefCell<EntryPatchMemory>,
    code: Code,
}

impl SlotMemory for PatchedEntry {
    fn read(&mut self) -> Option<usize> {
        self.memory.borrow().read()
    }
    fn compare_exchange(&mut self, expected: usize, new: usize) -> Result<(), usize> {
        let code = Rc::clone(&self.code);
        self.memory.borrow_mut().compare_exchange(expected, new, |at: usize, bytes: &[u8]| {
            map_words(&code, at, &decode_words(bytes));
            Ok(())
        })
    }
}

/// Maps `image` at `ENTRY` and binds it: the displaced bytes are relocated to
/// `TRAMPOLINE`.
fn bind_entry(image: &[u32]) -> Result<PatchedEntry, HookError> {
    let code: Code = Rc::new(RefCell::new(HashMap::new()));
    map_words(&code, ENTRY, image);
    let slot = EntryPatchSite::slot_address(&method_at(ENTRY, 0x4000), 8)?;
    assert_eq!(slot, 0x4000);
    let site = EntryPatchSite::new(ENTRY, REPLACEMENT)?;
    let original = encode_words(&image[..site.displaced() / 4]);
    let plan = site.relocate(&original)?;
    let words = plan.assemble(TRAMPOLINE as u64);
    assert_eq!(words.len(), plan.word_count());
    map_words(&code, TRAMPOLINE, &words);
    Ok(PatchedEntry {
        memory: RefCell::new(EntryPatchMemory::new(site, original, TRAMPOLINE)),
        code,
    })
}

#[test]
fn entry_patch_protocol_round_trips_through_method_pointer_slot() {
    const IMAGE: [u32; 5] = [ADD_X0_X1, ADD_X0_X1, ADD_X0_X1, ADD_X0_X1, RET];
    let mut entry = bind_entry(&IMAGE).expect("bind");
    let code = Rc::clone(&entry.code);
    let trampoline = match entry.read() {
        Some(word) => word,
        None => panic!("read must report the pristine state word"),
    };
    assert_ne!(trampoline, REPLACEMENT);
    assert_ne!(trampoline, ENTRY);

    // Pristine trampoline reproduces the original result: four
    // `add x0, x0, x1` instructions turn (2, 3) into 2+3+3+3+3 = 14.
    assert_eq!(call(&code, trampoline, 2, 3), 14);

    let mut slot = match MethodPointerSlot::bind(entry) {
        Ok(slot) => slot,
        Err(error) => panic!("slot bind: {error:?}"),
    };
    assert_eq!(slot.original(), trampoline);
    slot.install(REPLACEMENT).expect("install");

    // Hooked entry routes to the replacement.
    assert_eq!(call(&code, ENTRY, 2, 3), 7); // 2*2 + 3

    // Restore returns the original behavior and re-arms nothing.
    slot.restore(REPLACEMENT).expect("restore");
    assert_eq!(call(&code, ENTRY, 2, 3), 14);
    assert_eq!(call(&code, trampoline, 2, 3), 14);
}

#[test]
fn entry_patch_rejects_pc_relative_prologues() {
    // adrp x0, #0 (0x90000000): must fail closed at bind.
    let error = bind_entry(&[0x9000_0000, ADD_X0_X1, ADD_X0_X1, RET])
        .err()
        .expect("adrp prologue must be rejected");
    assert!(matches!(error, HookError::EntryPatchUnsupported(_)));
}

#[test]
fn cbz_branch_is_relocated_across_the_trampoline() {
    // Image: CBZ X1, ->RET; ADD X0,X0,X1; ADD X0,X0,X1; RET: the branch skips
    // both adds when b == 0. Original: f(a,b) = a if b == 0 else a + 2b.
    const CBZ_X1_3: u32 = 0xB400_0061;
    let image = [CBZ_X1_3, ADD_X0_X1, ADD_X0_X1, RET];
    let words = build_trampoline(ENTRY as u64, &image, TRAMPOLINE as u64).expect("trampoline");
    let code: Code = Rc::new(RefCell::new(HashMap::new()));
    map_words(&code, TRAMPOLINE, &words);
    // Both branch directions must behave identically to the original.
    assert_eq!(call(&code, TRAMPOLINE, 5, 0), 5, "b==0 path");
    assert_eq!(call(&code, TRAMPOLINE, 5, 3), 11, "b!=0 path");
}

#[test]
fn bl_call_is_relocated_with_correct_return_address() {
    // Proper frame: [STP x29,x30][BL helper][LDP x29,x30][RET]: the far window
    // displaces all four instructions including the BL and the RET.
    const STP_X29_X30: u32 = 0xA9BF_7BFD; // stp x29, x30, [sp, #-16]!
    const LDP_X29_X30: u32 = 0xA8C1_7BFD; // ldp x29, x30, [sp], #16
    let delta_words = (HELPER as i64 - (ENTRY + 4) as i64) / 4;
    let image = [STP_X29_X30, b_enc(0b100101, delta_words), LDP_X29_X30, RET];
    let words = build_trampoline(ENTRY as u64, &image, TRAMPOLINE as u64).expect("trampoline");
    let code: Code = Rc::new(RefCell::new(HashMap::new()));
    map_words(&code, TRAMPOLINE, &words);
    // The relocated BL calls the helper (x0*2); the LDP copy restores the
    // caller's LR and the RET copy returns it.
    assert_eq!(call(&code, TRAMPOLINE, 5, 9), 10);
    assert_eq!(call(&code, TRAMPOLINE, 21, 3), 42);
}

#[test]
fn install_conflict_and_drift_follow_the_slot_contract() {
    let entry =
        bind_entry(&[ADD_X0_X1, ADD_X0_X1, ADD_X0_X1, ADD_X0_X1, RET]).expect("bind");
    let code = Rc::clone(&entry.code);
    let mut slot = match MethodPointerSlot::bind(entry) {
        Ok(slot) => slot,
        Err(error) => panic!("slot bind: {error:?}"),
    };
    slot.install(REPLACEMENT).expect("install");

    // A second install with a stale expected value reports conflict and does
    // not write.
    assert!(matches!(
        slot.install(REPLACEMENT),
        Err(HookError::SlotConflict)
    ));
    assert_eq!(call(&code, ENTRY, 2, 3), 7);

    slot.restore(REPLACEMENT).expect("restore");
    // Double restore reports ownership drift (slot no longer holds the
    // replacement).
    assert!(matches!(
        slot.restore(REPLACEMENT),
        Err(HookError::OwnershipDrift)
    ));
    assert_eq!(call(&code, ENTRY, 2, 3), 14);
}

#[test]
fn instructions_are_classified_with_their_targets() {
    let at = 0x1000;
    assert_eq!(plan_op(0x1400_0001, at), Ok(Plan::B { target: 0x1004 }));
    assert_eq!(plan_op(0x97FF_FFFF, at), Ok(Plan::Bl { target: 0xFFC }));
    assert_eq!(
        plan_op(0x5400_0041, at),
        Ok(Plan::BCond {
            cond: 1,
            inverted: false,
            target: 0x1008
        })
    );
    assert_eq!(
        plan_op(0xB400_0061, at),
        Ok(Plan::CbzCbnz {
            op: 0xB400_0061,
            rt: 1,
            target: 0x100C
        })
    );
    // tbz w1, #2, +12
    assert_eq!(
        plan_op(0x3610_0061, at),
        Ok(Plan::TbzTbnz {
            op: 0x3610_0061,
            rt: 1,
            target: 0x100C
        })
    );
    assert_eq!(
        plan_op(ADD_X0_X1, at),
        Ok(Plan::Verbatim { op: ADD_X0_X1 })
    );
    assert_eq!(plan_op(PACIBSP, at), Ok(Plan::Verbatim { op: PACIBSP }));
    // ldr x0, [x1] names no address
    assert_eq!(
        plan_op(0xF940_0020, at),
        Ok(Plan::Verbatim { op: 0xF940_0020 })
    );
}

#[test]
fn position_dependent_instructions_are_refused() {
    // adr, adrp, and literal loads of every kind
    for op in [
        0x1000_0000,
        0x9000_0000,
        0x1800_0040,
        0x5800_0040,
        0x9800_0040,
        0xD800_0040,
        0x1C00_0040,
        0x5C00_0040,
        0x9C00_0040,
    ] {
        assert!(
            matches!(plan_op(op, 0x1000), Err(HookError::EntryPatchUnsupported(_))),
            "{op:#x}"
        );
    }
}

#[test]
fn branch_encodings_carry_their_distance() {
    assert_eq!(b_enc(0b000101, 1), 0x1400_0001);
    assert_eq!(b_enc(0b000101, -1), 0x17FF_FFFF);
    assert_eq!(b_enc(0b100101, 0x1FF_FFFF), 0x95FF_FFFF);
}

#[test]
fn branches_that_leave_the_window_grow() {
    let window = Window {
        start: 0x1000,
        end: 0x1010,
    };
    assert_eq!(plan_size(&Plan::Verbatim { op: RET }, &window), 1);
    assert_eq!(plan_size(&Plan::B { target: 0x1008 }, &window), 1);
    assert_eq!(plan_size(&Plan::B { target: 0x2000 }, &window), 4);
    assert_eq!(plan_size(&Plan::Bl { target: 0x2000 }, &window), 7);
}

#[test]
fn bit_test_inside_the_window_keeps_register_and_bit() {
    // tbz w1, #2, +12 over two adds, then ret: the branch still skips both.
    let image = [0x3610_0061, ADD_X0_X1, ADD_X0_X1, RET];
    let words = build_trampoline(ENTRY as u64, &image, TRAMPOLINE as u64).expect("trampoline");
    assert_eq!(words[0], 0x3610_0061);
    assert_eq!(&words[1..4], &[ADD_X0_X1, ADD_X0_X1, RET]);
}

#[test]
fn bit_test_that_leaves_the_window_is_turned_round() {
    // tbz w1, #2, far: tbnz w1, #2 over the far jump.
    let image = [0x3610_0801];
    let words = build_trampoline(0x1000, &image, 0x2_0000).expect("trampoline");
    assert_eq!(words[0] & 0xFFF8_001F, 0x3710_0001);
    assert_eq!((words[0] >> 5) & 0x3FFF, words.len() as u32 - 4);
}

#[test]
fn trampoline_ends_in_a_jump_behind_the_displaced_code() {
    let words = build_trampoline(0x1_0000_1000, &[ADD_X0_X1], 0x2_0000_0000).expect("trampoline");
    assert_eq!(
        words,
        vec![ADD_X0_X1, 0x5800_0050, 0xD61F_0200, 0x0000_1004, 0x0000_0001]
    );
}

#[test]
fn near_and_far_patches() {
    assert_eq!(
        entry_patch_bytes(0x1000, 0x2000),
        vec![0x00, 0x04, 0x00, 0x14]
    );
    assert_eq!(
        decode_words(&entry_patch_bytes(0x1000, 0x7_0000_2000)),
        vec![0x5800_0050, 0xD61F_0200, 0x0000_2000, 0x0000_0007]
    );
}

#[test]
fn code_words_survive_the_bytes() {
    let words = [0x0102_0304, 0xFFFF_FFFF, 0];
    assert_eq!(encode_words(&words)[..4], [4, 3, 2, 1]);
    assert_eq!(decode_words(&encode_words(&words)), words);
}

#[test]
fn patches_stay_on_one_page() {
    assert_eq!(
        remap_site(0x1FF4, 16, 0x1000),
        Err(HookError::EntryPatchUnsupported("patch crosses a page boundary"))
    );
    let site = remap_site(0x1FF0, 16, 0x1000).expect("fits");
    assert_eq!((site.page, site.offset), (0x1000, 0xFF0));
    let target = vec![0xAA; 0x1000];
    let patch = vec![0x55; 16];
    let page = staged_page(&target, &site, &patch);
    assert_eq!(page.len(), 0x1000);
    assert_eq!(page[0xFEF], 0xAA);
    assert!(page[0xFF0..].iter().all(|&byte| byte == 0x55));
    assert_eq!(confirm_patch(&patch, &page[0xFF0..]), Ok(()));
    assert_eq!(
        confirm_patch(&patch, &page[0xFE0..0xFF0]),
        Err(HookError::InstallationFailed)
    );
}

#[test]
fn remapping_runs_its_steps_in_order_and_stops_at_a_failure() {
    assert_eq!(RemapStep::OpenStage.next(true), Ok(Some(RemapStep::SealStage)));
    assert_eq!(RemapStep::SealStage.next(true), Ok(Some(RemapStep::Remap)));
    assert_eq!(RemapStep::Remap.next(true), Ok(Some(RemapStep::ReadBack)));
    assert_eq!(RemapStep::ReadBack.next(true), Ok(None));
    assert_eq!(
        RemapStep::Remap.next(false),
        Err(HookError::InstallationFailed)
    );
}

#[test]
fn page_size_and_cache_lines() {
    assert_eq!(page_size(16384), Ok(16384));
    assert_eq!(
        page_size(-1),
        Err(HookError::EntryPatchUnsupported("page size unavailable"))
    );
    assert_eq!(sync_range(100, 10), (64, 128));
    assert_eq!(sync_range(128, 64), (128, 192));
}

#[test]
fn malformed_entries_and_slots_are_refused() {
    assert_eq!(
        EntryPatchSite::slot_address(&method_at(ENTRY, 0), 8),
        Err(HookError::SlotMalformed)
    );
    assert_eq!(
        EntryPatchSite::slot_address(&method_at(ENTRY, 0x4004), 8),
        Err(HookError::SlotMalformed)
    );
    assert!(matches!(
        EntryPatchSite::new(0, REPLACEMENT),
        Err(HookError::SlotMalformed)
    ));
    assert!(matches!(
        EntryPatchSite::new(ENTRY + 2, REPLACEMENT),
        Err(HookError::SlotMalformed)
    ));
}

#[test]
fn failed_write_keeps_the_word_and_is_remembered() {
    let mut entry = bind_entry(&[ADD_X0_X1, ADD_X0_X1, ADD_X0_X1, ADD_X0_X1, RET]).expect("bind");
    assert_eq!(entry.memory.borrow().last_failure(), None);
    let refused = |_: usize, _: &[u8]| Err(HookError::InstallationFailed);
    assert_eq!(
        entry.memory.borrow_mut().compare_exchange(TRAMPOLINE, REPLACEMENT, &refused),
        Err(TRAMPOLINE)
    );
    assert_eq!(entry.memory.borrow().last_failure(), Some("entry patch write failed"));
    assert_eq!(entry.compare_exchange(TRAMPOLINE, REPLACEMENT), Ok(()));
    assert_eq!(
        entry.memory.borrow_mut().compare_exchange(REPLACEMENT, TRAMPOLINE, &refused),
        Err(REPLACEMENT)
    );
    assert_eq!(entry.memory.borrow().last_failure(), Some("entry restore write failed"));
    // Only the two words of the site can be swapped in.
    assert_eq!(entry.compare_exchange(REPLACEMENT, 0x77), Err(REPLACEMENT));
}

#[test]
fn branches_that_are_always_taken_leave_by_a_plain_jump() {
    // `b.al` and `b.nv` over 0x100 words, out of the window.
    for op in [0x5400_200E_u32, 0x5400_200F] {
        let window = Window {
            start: ENTRY as u64,
            end: ENTRY as u64 + 4,
        };
        let plan = plan_op(op, ENTRY as u64).expect("plan");
        assert_eq!(plan_size(&plan, &window), 5);
        let words = build_trampoline(ENTRY as u64, &[op], TRAMPOLINE as u64).expect("trampoline");
        assert_eq!(words[0], NOP);
        assert_eq!(words[4], 0xD61F_0200);
        let code: Code = Rc::new(RefCell::new(HashMap::new()));
        map_words(&code, TRAMPOLINE + 4, &words[1..]);
        map_words(&code, ENTRY + 0x400, &[ADD_X0_X1, RET]);
        assert_eq!(call(&code, TRAMPOLINE + 4, 2, 3), 5);
    }
}
