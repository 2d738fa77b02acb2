//! Typed debug topics.
//!
//! Main domain: the dispatch system decodes wire requests, checks the gates
//! and queues payloads in the topic channel; the owner's handler system
//! drains the channel, calls the handler and writes encoded responses to the
//! channel outbox; the dispatch system drains the outbox back to the wire.
//!
//! Callback domain: the same channel carries the traffic between wire and
//! owner; the owner's relay system forwards one queued request at a time into
//! a [`SharedSlot`] (never overwriting an unconsumed request), the owner's
//! hook callback handles it on natural entry via
//! [`CallbackDebugEndpoints::handle_pending`], and the relay picks the
//! response up and pairs it first in, first out with the delivered ids.

use std::collections::VecDeque;

use serde_json::Value;
use vstd::prelude::*;

use crate::error::PluginError;
use crate::gate::{GateBoard, GateReader};
use crate::json::JsonTree;

verus! {

/// Handler failure vocabulary (maps to `handler_error`).
#[derive(Debug)]
pub struct DebugHandlerError(pub String);

/// One wire request; `id` travels with the typed payload through the channel.
/// `generation` identifies the connection the request arrived on: responses
/// carry it back so the transport can drop answers whose connection is gone.
pub struct DebugQueuedRequest<P> {
    pub id: Value,
    pub payload: P,
    pub generation: u64,
}

/// What a queued request stands for.
pub struct QueuedView<P> {
    pub id: JsonTree,
    pub payload: P,
    pub generation: u64,
}

impl<P> View for DebugQueuedRequest<P> {
    type V = QueuedView<P>;

    open spec fn view(&self) -> QueuedView<P> {
        QueuedView {
            id: crate::json::json_tree(self.id),
            payload: self.payload,
            generation: self.generation,
        }
    }
}

/// Server-side error codes.
#[derive(Debug, Clone, Copy, PartialEq, Eq, Structural)]
pub enum DebugWireErrorCode {
    MethodNotFound,
    InvalidParams,
    ServerError(DebugServerError),
}

#[derive(Debug, Clone, Copy, PartialEq, Eq, Structural)]
pub enum DebugServerError {
    RuntimeUnavailable,
    QueueFull,
    PayloadTooLarge,
    PluginUnavailable,
    HandlerError,
    InternalError,
}

impl DebugServerError {
    /// Wire name of this error.
    pub open spec fn name(self) -> Seq<char> {
        match self {
            DebugServerError::RuntimeUnavailable => "runtime_unavailable"@,
            DebugServerError::QueueFull => "queue_full"@,
            DebugServerError::PayloadTooLarge => "payload_too_large"@,
            DebugServerError::PluginUnavailable => "plugin_unavailable"@,
            DebugServerError::HandlerError => "handler_error"@,
            DebugServerError::InternalError => "internal_error"@,
        }
    }

    #[must_use]
    pub fn code_name(self) -> (r: &'static str)
        ensures
            r@ == self.name(),
    {
        match self {
            DebugServerError::RuntimeUnavailable => "runtime_unavailable",
            DebugServerError::QueueFull => "queue_full",
            DebugServerError::PayloadTooLarge => "payload_too_large",
            DebugServerError::PluginUnavailable => "plugin_unavailable",
            DebugServerError::HandlerError => "handler_error",
            DebugServerError::InternalError => "internal_error",
        }
    }
}

#[derive(Debug)]
pub struct DebugWireError {
    pub code: DebugWireErrorCode,
    pub message: String,
}

/// What a wire error stands for.
pub struct WireErrorView {
    pub code: DebugWireErrorCode,
    pub message: Seq<char>,
}

impl View for DebugWireError {
    type V = WireErrorView;

    open spec fn view(&self) -> WireErrorView {
        WireErrorView { code: self.code, message: self.message@ }
    }
}

/// The view of a server error.
pub open spec fn server_error(error: DebugServerError, message: Seq<char>) -> WireErrorView {
    WireErrorView { code: DebugWireErrorCode::ServerError(error), message }
}

/// A wire response on its way from a handler to the transport.
pub struct DebugResponse {
    pub id: Value,
    pub result: Result<Value, DebugWireError>,
    /// Connection generation of the request this answer belongs to.
    pub generation: u64,
}

/// What a response stands for.
pub struct AnswerView {
    pub id: JsonTree,
    pub result: Result<JsonTree, WireErrorView>,
    pub generation: u64,
}

/// The view of a handler result.
pub open spec fn result_view(result: Result<Value, DebugWireError>) -> Result<
    JsonTree,
    WireErrorView,
> {
    match result {
        Ok(value) => Ok(crate::json::json_tree(value)),
        Err(error) => Err(error@),
    }
}

impl View for DebugResponse {
    type V = AnswerView;

    open spec fn view(&self) -> AnswerView {
        AnswerView {
            id: crate::json::json_tree(self.id),
            result: result_view(self.result),
            generation: self.generation,
        }
    }
}

/// State shared between the dispatch system and the owner's handler system.
/// `P` is the payload type that decoding leads to.
pub struct DebugTopicChannel<P> {
    /// Wire-side queue: decoded requests awaiting the owner handler system.
    pub inbox: VecDeque<DebugQueuedRequest<P>>,
    /// Handler-side queue: encoded responses awaiting the wire.
    pub outbox: Vec<DebugResponse>,
    /// Pending requests awaiting a response (bounded).
    pub pending: usize,
    /// Owner gate reader, checked by the dispatch system.
    pub owner_gate: GateReader,
    /// Runtime gate reader, checked by the dispatch system.
    pub runtime_gate: GateReader,
}

/// Bounded pending ceiling per topic.
pub const DEBUG_MAX_PENDING: usize = 16;

/// What a channel holds.
#[verifier::ext_equal]
pub struct ChannelView<P> {
    pub inbox: Seq<QueuedView<P>>,
    pub outbox: Seq<AnswerView>,
    pub pending: usize,
}

impl<P> View for DebugTopicChannel<P> {
    type V = ChannelView<P>;

    open spec fn view(&self) -> ChannelView<P> {
        ChannelView {
            inbox: self.inbox@.map_values(|request: DebugQueuedRequest<P>| request@),
            outbox: self.outbox@.map_values(|response: DebugResponse| response@),
            pending: self.pending,
        }
    }
}

/// The pending counter after one release. Releasing more than is pending
/// wraps around.
pub open spec fn one_less(pending: usize) -> usize {
    if pending == 0 {
        usize::MAX
    } else {
        (pending - 1) as usize
    }
}

/// The pending counter after `count` releases.
pub open spec fn released(pending: usize, count: nat) -> usize
    decreases count,
{
    if count == 0 {
        pending
    } else {
        one_less(released(pending, (count - 1) as nat))
    }
}

/// As long as nothing is released twice, the counter counts down.
pub proof fn released_counts_down(pending: usize, count: nat)
    requires
        count <= pending,
    ensures
        released(pending, count) == pending - count,
    decreases count,
{
    if count > 0 {
        released_counts_down(pending, (count - 1) as nat);
    }
}

impl<P> DebugTopicChannel<P> {
    /// Both channels are guarded by the same gates.
    pub open spec fn same_gates(self, other: Self) -> bool {
        self.owner_gate == other.owner_gate && self.runtime_gate == other.runtime_gate
    }

    /// Both gates stand on `board`.
    pub open spec fn gates_on(self, board: GateBoard) -> bool {
        self.owner_gate.stands_on(board) && self.runtime_gate.stands_on(board)
    }

    /// Both gates are open.
    pub open spec fn is_dispatchable(self, board: GateBoard) -> bool {
        self.runtime_gate.state(board) is Open && self.owner_gate.state(board) is Open
    }

    /// An empty channel behind two gates.
    pub fn new(owner_gate: GateReader, runtime_gate: GateReader) -> (r: Self)
        ensures
            r@ == (ChannelView::<P> { inbox: Seq::empty(), outbox: Seq::empty(), pending: 0 }),
            r.owner_gate == owner_gate,
            r.runtime_gate == runtime_gate,
    {
        let r = DebugTopicChannel {
            inbox: VecDeque::new(),
            outbox: Vec::new(),
            pending: 0,
            owner_gate,
            runtime_gate,
        };
        assert(r@ =~= (ChannelView::<P> {
            inbox: Seq::empty(),
            outbox: Seq::empty(),
            pending: 0,
        }));
        r
    }

    /// Queues a decoded request. `QueueFull` when the pending ceiling is
    /// reached.
    pub fn enqueue(&mut self, id: Value, payload: P, generation: u64) -> (r: Result<
        (),
        DebugWireError,
    >)
        ensures
            final(self).same_gates(*old(self)),
            if old(self).pending >= DEBUG_MAX_PENDING {
                &&& r is Err
                &&& r->Err_0@ == server_error(
                    DebugServerError::QueueFull,
                    "topic pending capacity reached"@,
                )
                &&& final(self)@ == old(self)@
            } else {
                &&& r is Ok
                &&& final(self)@ == (ChannelView {
                    inbox: old(self)@.inbox.push(
                        QueuedView { id: crate::json::json_tree(id), payload, generation },
                    ),
                    outbox: old(self)@.outbox,
                    pending: (old(self)@.pending + 1) as usize,
                })
            },
    {
        if self.pending >= DEBUG_MAX_PENDING {
            return Err(
                DebugWireError {
                    code: DebugWireErrorCode::ServerError(DebugServerError::QueueFull),
                    message: "topic pending capacity reached".to_owned(),
                },
            );
        }
        self.inbox.push_back(DebugQueuedRequest { id, payload, generation });
        self.pending = self.pending + 1;
        assert(self@.inbox =~= old(self)@.inbox.push(
            QueuedView { id: crate::json::json_tree(id), payload, generation },
        ));
        Ok(())
    }

    /// Whether new requests may be dispatched (both gates open).
    #[must_use]
    pub fn dispatchable(&self, board: &GateBoard) -> (r: bool)
        requires
            self.gates_on(*board),
        ensures
            r == self.is_dispatchable(*board),
    {
        self.runtime_gate.is_open(board) && self.owner_gate.is_open(board)
    }

    /// Releases one pending slot (called when a response was produced).
    pub fn leave_pending(&mut self)
        ensures
            final(self).same_gates(*old(self)),
            final(self)@ == (ChannelView { pending: one_less(old(self)@.pending), ..old(self)@ }),
    {
        self.pending = self.pending.wrapping_sub(1);
    }

    /// Hands a response to the wire and releases the pending slot of its
    /// request.
    pub fn answer(&mut self, response: DebugResponse)
        ensures
            final(self).same_gates(*old(self)),
            final(self)@ == (ChannelView {
                inbox: old(self)@.inbox,
                outbox: old(self)@.outbox.push(response@),
                pending: one_less(old(self)@.pending),
            }),
    {
        self.outbox.push(response);
        assert(self@.outbox =~= old(self)@.outbox.push(response@));
        self.leave_pending();
    }
}

/// How the handling of one request ended.
pub enum HandlerOutcome {
    /// The payload is not of the topic's request type.
    TypeMismatch,
    /// The payload is referenced elsewhere and cannot be taken out.
    ExtraReferences,
    /// The parameters of the handler are no longer valid.
    ParamsInvalid,
    /// The handler answered, and its answer was encoded.
    Encoded(Value),
    /// The handler answered, and encoding its answer failed.
    Unencodable(String),
    /// The handler refused the request.
    Failed(DebugHandlerError),
    /// The handler panicked.
    Panicked,
}

/// What goes back to the wire for an outcome.
pub open spec fn wire_result(outcome: HandlerOutcome) -> Result<JsonTree, WireErrorView> {
    match outcome {
        HandlerOutcome::TypeMismatch => Err(
            server_error(DebugServerError::InternalError, "queued request type mismatch"@),
        ),
        HandlerOutcome::ExtraReferences => Err(
            server_error(DebugServerError::InternalError, "queued request has extra references"@),
        ),
        HandlerOutcome::ParamsInvalid => Err(
            server_error(DebugServerError::PluginUnavailable, "handler params no longer valid"@),
        ),
        HandlerOutcome::Encoded(value) => Ok(crate::json::json_tree(value)),
        HandlerOutcome::Unencodable(message) => Err(
            server_error(DebugServerError::InternalError, message@),
        ),
        HandlerOutcome::Failed(error) => Err(
            server_error(DebugServerError::HandlerError, error.0@),
        ),
        HandlerOutcome::Panicked => Err(
            server_error(DebugServerError::PluginUnavailable, "debug handler panicked"@),
        ),
    }
}

fn wire_error(error: DebugServerError, message: String) -> (r: Result<Value, DebugWireError>)
    ensures
        result_view(r) == Err::<JsonTree, WireErrorView>(server_error(error, message@)),
{
    Err(DebugWireError { code: DebugWireErrorCode::ServerError(error), message })
}

/// What goes back to the wire for an outcome.
pub fn handler_result(outcome: HandlerOutcome) -> (r: Result<Value, DebugWireError>)
    ensures
        result_view(r) == wire_result(outcome),
{
    match outcome {
        HandlerOutcome::TypeMismatch => wire_error(
            DebugServerError::InternalError,
            "queued request type mismatch".to_owned(),
        ),
        HandlerOutcome::ExtraReferences => wire_error(
            DebugServerError::InternalError,
            "queued request has extra references".to_owned(),
        ),
        HandlerOutcome::ParamsInvalid => wire_error(
            DebugServerError::PluginUnavailable,
            "handler params no longer valid".to_owned(),
        ),
        HandlerOutcome::Encoded(value) => Ok(value),
        HandlerOutcome::Unencodable(message) => wire_error(
            DebugServerError::InternalError,
            message,
        ),
        HandlerOutcome::Failed(error) => wire_error(DebugServerError::HandlerError, error.0),
        HandlerOutcome::Panicked => wire_error(
            DebugServerError::PluginUnavailable,
            "debug handler panicked".to_owned(),
        ),
    }
}

/// The answers to the first requests of `inbox`, one for each outcome.
pub open spec fn answers<P>(inbox: Seq<QueuedView<P>>, outcomes: Seq<HandlerOutcome>) -> Seq<
    AnswerView,
> {
    Seq::new(
        outcomes.len(),
        |i: int|
            AnswerView {
                id: inbox[i].id,
                result: wire_result(outcomes[i]),
                generation: inbox[i].generation,
            },
    )
}

/// A run of the handler over a channel that held `before` and holds `after`:
/// the handler gets the requests in order, each is answered in order and
/// gives its pending slot back. A panic answers its own request, leaves the
/// rest queued as it was and fails the run.
pub open spec fn handler_run<P, H: Fn(P) -> HandlerOutcome>(
    handler: H,
    before: ChannelView<P>,
    after: ChannelView<P>,
    outcomes: Seq<HandlerOutcome>,
    result: Result<(), PluginError>,
) -> bool {
    let count = outcomes.len() as int;
    let panicked = count > 0 && outcomes.last() is Panicked;
    &&& count <= before.inbox.len()
    &&& forall|i: int|
        0 <= i < count ==> handler.ensures((before.inbox[i].payload,), #[trigger] outcomes[i])
    &&& forall|i: int| 0 <= i < count - 1 ==> #[trigger] outcomes[i] !is Panicked
    &&& after.inbox == before.inbox.skip(count)
    &&& after.outbox == before.outbox + answers(before.inbox, outcomes)
    &&& after.pending == released(before.pending, outcomes.len())
    &&& if panicked {
        result is Err && result->Err_0 == PluginError::Message(
            "debug handler panicked; retiring owner debug routes",
        )
    } else {
        result is Ok && count == before.inbox.len()
    }
}

/// The owner-side handler system of one topic.
pub struct DebugHandlerSystem<H> {
    pub handler: H,
}

impl<H> DebugHandlerSystem<H> {
    /// Answers every request that is queued.
    pub fn run<P>(&self, channel: &mut DebugTopicChannel<P>) -> (r: Result<(), PluginError>) where
        H: Fn(P) -> HandlerOutcome,

        requires
            forall|i: int|
                0 <= i < old(channel)@.inbox.len() ==> self.handler.requires(
                    (#[trigger] old(channel)@.inbox[i].payload,),
                ),
        ensures
            final(channel).same_gates(*old(channel)),
            exists|outcomes: Seq<HandlerOutcome>| #[trigger]
                handler_run(self.handler, old(channel)@, final(channel)@, outcomes, r),
            old(channel)@.pending == old(channel)@.inbox.len() ==> final(channel)@.pending == final(
                channel)@.inbox.len(),
    {
        let ghost before = channel@;
        let ghost mut outcomes: Seq<HandlerOutcome> = Seq::empty();
        assert(channel@.inbox =~= before.inbox.skip(0));
        assert(channel@.outbox =~= before.outbox + answers(before.inbox, outcomes));
        loop
            invariant
                channel.same_gates(*old(channel)),
                before == old(channel)@,
                outcomes.len() <= before.inbox.len(),
                forall|i: int|
                    0 <= i < before.inbox.len() ==> self.handler.requires(
                        (#[trigger] before.inbox[i].payload,),
                    ),
                forall|i: int|
                    0 <= i < outcomes.len() ==> self.handler.ensures(
                        (before.inbox[i].payload,),
                        #[trigger] outcomes[i],
                    ),
                forall|i: int| 0 <= i < outcomes.len() ==> #[trigger] outcomes[i] !is Panicked,
                channel@.inbox == before.inbox.skip(outcomes.len() as int),
                channel@.outbox == before.outbox + answers(before.inbox, outcomes),
                channel@.pending == released(before.pending, outcomes.len()),
            decreases channel@.inbox.len(),
        {
            let ghost inbox = channel@.inbox;
            let queued = match channel.inbox.pop_front() {
                Some(queued) => queued,
                None => {
                    proof {
                        assert(handler_run(self.handler, before, channel@, outcomes, Ok(())));
                        if before.pending == before.inbox.len() {
                            released_counts_down(before.pending, outcomes.len());
                        }
                    }
                    return Ok(());
                },
            };
            proof {
                assert(inbox.len() > 0);
                assert(inbox[0] == queued@);
                assert(inbox[0] == before.inbox[outcomes.len() as int]);
                assert(before.inbox[outcomes.len() as int].payload == queued.payload);
                assert(channel@.inbox =~= inbox.skip(1));
                assert(inbox.skip(1) =~= before.inbox.skip(outcomes.len() as int + 1));
            }
            let outcome = (self.handler)(queued.payload);
            let ghost seen = outcome;
            let panicked: bool = match &outcome {
                HandlerOutcome::Panicked => true,
                _ => false,
            };
            let result = handler_result(outcome);
            channel.answer(DebugResponse { id: queued.id, result, generation: queued.generation });
            proof {
                let earlier = outcomes;
                outcomes = earlier.push(seen);
                assert(channel@.outbox =~= before.outbox + answers(before.inbox, outcomes));
                if before.pending == before.inbox.len() {
                    released_counts_down(before.pending, outcomes.len());
                }
            }
            if panicked {
                let failed = PluginError::Message(
                    "debug handler panicked; retiring owner debug routes",
                );
                assert(handler_run(self.handler, before, channel@, outcomes, Err(failed)));
                return Err(failed);
            }
        }
    }
}

} // verus!
