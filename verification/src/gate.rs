//! Process-level runtime gate and per-plugin gate readers.
//!
//! A gate starts closed, is opened once, and can never be reopened after a
//! close. The states of all gates stand on one [`GateBoard`]; control and
//! reader handles name a place on it, so every reader of a gate sees what
//! any of its control handles did.

use vstd::prelude::*;

verus! {

/// State of one gate.
#[derive(Debug, Clone, Copy, PartialEq, Eq, Structural)]
pub enum GateState {
    /// Not opened yet.
    Closed,
    /// Open.
    Open,
    /// Closed for good.
    FailedClosed,
}

/// The states of all gates.
#[derive(Debug)]
pub struct GateBoard {
    states: Vec<GateState>,
}

impl View for GateBoard {
    type V = Seq<GateState>;

    closed spec fn view(&self) -> Seq<GateState> {
        self.states@
    }
}

impl GateBoard {
    #[must_use]
    pub fn new() -> (r: Self)
        ensures
            r@ == Seq::<GateState>::empty(),
    {
        GateBoard { states: Vec::new() }
    }
}

impl Default for GateBoard {
    fn default() -> (r: Self)
        ensures
            r@ == Seq::<GateState>::empty(),
    {
        GateBoard::new()
    }
}

/// Read-only handle to a gate. Callbacks, debug routes and I/O workers hold
/// only this side.
#[derive(Debug, Clone, Copy, PartialEq, Eq, Structural)]
pub struct GateReader(usize);

impl GateReader {
    /// The place of this gate.
    pub closed spec fn place(self) -> int {
        self.0 as int
    }

    /// This gate stands on `board`.
    pub open spec fn stands_on(self, board: GateBoard) -> bool {
        0 <= self.place() < board@.len()
    }

    /// State of this gate.
    pub open spec fn state(self, board: GateBoard) -> GateState {
        board@[self.place()]
    }

    /// `true` when this gate is open.
    #[must_use]
    pub fn is_open(&self, board: &GateBoard) -> (r: bool)
        requires
            self.stands_on(*board),
        ensures
            r == (self.state(*board) is Open),
    {
        match board.states[self.0] {
            GateState::Open => true,
            _ => false,
        }
    }

    /// `true` once this gate was closed for good.
    #[must_use]
    pub fn has_failed(&self, board: &GateBoard) -> (r: bool)
        requires
            self.stands_on(*board),
        ensures
            r == (self.state(*board) is FailedClosed),
    {
        match board.states[self.0] {
            GateState::FailedClosed => true,
            _ => false,
        }
    }
}

/// State after an attempt to open.
pub open spec fn opened(state: GateState) -> GateState {
    if state is Closed {
        GateState::Open
    } else {
        state
    }
}

/// The process-wide runtime gate control handle.
///
/// Initial state is closed. `open` succeeds at most once and only while no
/// close has happened; after [`RuntimeGate::close`] it stays closed for
/// the rest of the process.
#[derive(Debug, Clone, Copy, PartialEq, Eq, Structural)]
pub struct RuntimeGate(GateReader);

impl RuntimeGate {
    /// The reader side.
    pub closed spec fn handle(self) -> GateReader {
        self.0
    }

    /// Puts a new gate in the closed state on `board`.
    #[must_use]
    pub fn new(board: &mut GateBoard) -> (r: Self)
        ensures
            final(board)@ == old(board)@.push(GateState::Closed),
            r.handle().place() == old(board)@.len(),
    {
        let place: usize = board.states.len();
        board.states.push(GateState::Closed);
        RuntimeGate(GateReader(place))
    }

    /// Read-only side of this gate.
    #[must_use]
    pub fn reader(&self) -> (r: GateReader)
        ensures
            r == self.handle(),
    {
        self.0
    }

    /// Opens this gate. Returns `false` (without changing anything) if it
    /// was already opened or has been closed.
    pub fn open(&self, board: &mut GateBoard) -> (r: bool)
        requires
            self.handle().stands_on(*old(board)),
        ensures
            r == (self.handle().state(*old(board)) is Closed),
            final(board)@ == old(board)@.update(
                self.handle().place(),
                opened(self.handle().state(*old(board))),
            ),
    {
        let place: usize = self.0.0;
        match board.states[place] {
            GateState::Closed => {
                board.states.set(place, GateState::Open);
                true
            },
            _ => {
                assert(board@ =~= old(board)@.update(
                    self.handle().place(),
                    opened(self.handle().state(*old(board))),
                ));
                false
            },
        }
    }

    /// Closes this gate permanently. Subsequent `open` calls fail.
    pub fn close(&self, board: &mut GateBoard)
        requires
            self.handle().stands_on(*old(board)),
        ensures
            final(board)@ == old(board)@.update(self.handle().place(), GateState::FailedClosed),
    {
        board.states.set(self.0.0, GateState::FailedClosed);
    }

    /// Whether this gate has been closed (permanently).
    #[must_use]
    pub fn is_closed(&self, board: &GateBoard) -> (r: bool)
        requires
            self.handle().stands_on(*board),
        ensures
            r == (self.handle().state(*board) is FailedClosed),
    {
        match board.states[self.0.0] {
            GateState::FailedClosed => true,
            _ => false,
        }
    }
}

/// Control handle of one plugin's gate: closed while the plugin is built,
/// opened once when its startup systems all succeed, closed permanently on
/// retirement.
#[derive(Debug, Clone, Copy, PartialEq, Eq, Structural)]
pub struct PluginGate {
    inner: RuntimeGate,
}

impl PluginGate {
    /// The reader side.
    pub closed spec fn handle(self) -> GateReader {
        self.inner.handle()
    }

    #[must_use]
    pub fn new(board: &mut GateBoard) -> (r: Self)
        ensures
            final(board)@ == old(board)@.push(GateState::Closed),
            r.handle().place() == old(board)@.len(),
    {
        PluginGate { inner: RuntimeGate::new(board) }
    }

    /// Read-only side handed to hook sites and debug routes.
    #[must_use]
    pub fn reader(&self) -> (r: GateReader)
        ensures
            r == self.handle(),
    {
        self.inner.reader()
    }

    /// Opens this gate (once; later opens are no-ops).
    pub fn open(&self, board: &mut GateBoard)
        requires
            self.handle().stands_on(*old(board)),
        ensures
            final(board)@ == old(board)@.update(
                self.handle().place(),
                opened(self.handle().state(*old(board))),
            ),
    {
        let _ = self.inner.open(board);
    }

    /// Closes this gate permanently (retirement path).
    pub fn close(&self, board: &mut GateBoard)
        requires
            self.handle().stands_on(*old(board)),
        ensures
            final(board)@ == old(board)@.update(self.handle().place(), GateState::FailedClosed),
    {
        self.inner.close(board);
    }

    #[must_use]
    pub fn is_open(&self, board: &GateBoard) -> (r: bool)
        requires
            self.handle().stands_on(*board),
        ensures
            r == (self.handle().state(*board) is Open),
    {
        self.inner.reader().is_open(board)
    }
}

/// One operation of a control handle.
pub enum GateOp {
    Open,
    Close,
}

/// State after the operations `ops`.
pub open spec fn gate_after(state: GateState, ops: Seq<GateOp>) -> GateState
    decreases ops.len(),
{
    if ops.len() == 0 {
        state
    } else {
        match ops.last() {
            GateOp::Open => opened(gate_after(state, ops.drop_last())),
            GateOp::Close => GateState::FailedClosed,
        }
    }
}

/// A gate that was closed stays closed, whatever is done to it afterwards.
pub proof fn closed_gate_never_reopens(ops: Seq<GateOp>)
    ensures
        gate_after(GateState::FailedClosed, ops) is FailedClosed,
    decreases ops.len(),
{
    if ops.len() > 0 {
        closed_gate_never_reopens(ops.drop_last());
    }
}

/// A gate can be opened at most once: after an `open` and any further
/// operations, no `open` changes its state again.
pub proof fn gate_opens_at_most_once(state: GateState, ops: Seq<GateOp>)
    ensures
        opened(gate_after(opened(state), ops)) == gate_after(opened(state), ops),
        gate_after(opened(state), ops) !is Closed,
    decreases ops.len(),
{
    if ops.len() > 0 {
        gate_opens_at_most_once(state, ops.drop_last());
    }
}

} // verus!
