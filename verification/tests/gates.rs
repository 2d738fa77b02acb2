use shiny_song_tools::gate::{GateBoard, PluginGate, RuntimeGate};
use shiny_song_tools::original::{OriginalGuard, OriginalPhase};

#[test]
fn gate_reader_reads_with_expected_visibility() {
    let mut board = GateBoard::new();
    let gate = RuntimeGate::new(&mut board);
    let reader = gate.reader();
    assert!(!reader.is_open(&board), "runtime gate starts closed");
    assert!(gate.open(&mut board), "first open succeeds");
    assert!(reader.is_open(&board));
    assert!(!gate.open(&mut board), "second open is a no-op");
    gate.close(&mut board);
    assert!(!reader.is_open(&board), "close is visible through readers");
    assert!(!gate.open(&mut board), "gate cannot reopen after close");
    assert!(!reader.is_open(&board));
    assert!(gate.is_closed(&board));
}

#[test]
fn gate_closed_before_it_opened_stays_closed() {
    let mut board = GateBoard::new();
    let gate = RuntimeGate::new(&mut board);
    assert!(!gate.is_closed(&board));
    gate.close(&mut board);
    assert!(gate.is_closed(&board));
    assert!(!gate.open(&mut board));
    assert!(!gate.reader().is_open(&board));
}

#[test]
fn gates_on_one_board_are_independent() {
    let mut board = GateBoard::new();
    let runtime = RuntimeGate::new(&mut board);
    let first = PluginGate::new(&mut board);
    let second = PluginGate::new(&mut board);
    assert!(runtime.open(&mut board));
    first.open(&mut board);
    assert!(first.is_open(&board));
    assert!(!second.is_open(&board));
    first.close(&mut board);
    assert!(!first.reader().is_open(&board));
    assert!(runtime.reader().is_open(&board));
    second.open(&mut board);
    assert!(second.is_open(&board));
    first.open(&mut board);
    assert!(!first.is_open(&board), "closing is terminal");
}

#[test]
fn exactly_once_transitions() {
    let mut guard = OriginalGuard::new();
    assert!(guard.needs_original());
    assert!(guard.begin_call(), "first call accepted");
    assert!(!guard.begin_call(), "duplicate call rejected");
    guard.end_call();
    assert_eq!(guard.phase(), OriginalPhase::AfterOriginal);
    assert!(!guard.needs_original());
    assert!(!guard.begin_call());
}
