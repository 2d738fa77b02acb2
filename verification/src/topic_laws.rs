//! What holds of topics, their handlers and the relay into callbacks.

use std::sync::Arc;

use serde_json::Value;
use vstd::prelude::*;

use crate::callback::CallbackCtx;
use crate::container::{SharedSlot, SlotAccess};
use crate::debug_relay::{
    CallbackDebugEndpoints, CallbackRelaySystem, EndpointAccess, RelayAccess,
};
use crate::debug_topic::{
    handler_result, AnswerView, ChannelView, DebugHandlerError, DebugHandlerSystem, DebugResponse,
    DebugServerError, DebugTopicChannel, DebugWireError, DebugWireErrorCode, HandlerOutcome,
    QueuedView, WireErrorView,
};
use crate::error::PluginError;
use crate::gate::GateBoard;
use crate::json::JsonTree;

verus! {

// ---------------------------------------------------------------------------
// Topics
// ---------------------------------------------------------------------------

/// The name of each server error.
pub proof fn server_errors_have_their_names(error: DebugServerError, r: &'static str)
    requires
        call_ensures(DebugServerError::code_name, (error,), r),
    ensures
        error is RuntimeUnavailable ==> r@ == "runtime_unavailable"@,
        error is QueueFull ==> r@ == "queue_full"@,
        error is PayloadTooLarge ==> r@ == "payload_too_large"@,
        error is PluginUnavailable ==> r@ == "plugin_unavailable"@,
        error is HandlerError ==> r@ == "handler_error"@,
        error is InternalError ==> r@ == "internal_error"@,
{
}

/// A request waits behind those before it, with its own id, payload and
/// connection, as long as fewer than 16 are unanswered; beyond that it is
/// refused `queue_full`, and nothing changes.
pub proof fn at_most_sixteen_are_unanswered<P>(
    channel: &mut DebugTopicChannel<P>,
    id: Value,
    payload: P,
    generation: u64,
    r: Result<(), DebugWireError>,
)
    requires
        call_ensures(DebugTopicChannel::<P>::enqueue, (channel, id, payload, generation), r),
    ensures
        r is Ok <==> old(channel)@.pending < 16,
        r is Ok ==> {
            &&& final(channel)@.pending == old(channel)@.pending + 1
            &&& final(channel)@.outbox == old(channel)@.outbox
            &&& final(channel)@.inbox.len() == old(channel)@.inbox.len() + 1
            &&& final(channel)@.inbox.drop_last() == old(channel)@.inbox
            &&& final(channel)@.inbox.last().id == crate::json::json_tree(id)
            &&& final(channel)@.inbox.last().payload == payload
            &&& final(channel)@.inbox.last().generation == generation
        },
        r matches Err(error) ==> {
            &&& final(channel)@ == old(channel)@
            &&& error.code == DebugWireErrorCode::ServerError(DebugServerError::QueueFull)
            &&& error.message@ == "topic pending capacity reached"@
        },
        final(channel).owner_gate == old(channel).owner_gate,
        final(channel).runtime_gate == old(channel).runtime_gate,
{
    if r is Ok {
        let queued = QueuedView { id: crate::json::json_tree(id), payload, generation };
        assert(old(channel)@.inbox.push(queued).drop_last() =~= old(channel)@.inbox);
    }
}

/// Requests reach a topic exactly while both of its gates are open.
pub proof fn both_gates_guard_a_topic<P>(
    channel: &DebugTopicChannel<P>,
    board: &GateBoard,
    r: bool,
)
    requires
        call_ensures(DebugTopicChannel::<P>::dispatchable, (channel, board), r),
    ensures
        r <==> channel.owner_gate.state(*board) is Open && channel.runtime_gate.state(
            *board,
        ) is Open,
{
}

/// An answer waits behind those before it and gives one pending slot back.
pub proof fn answering_frees_a_slot<P>(
    channel: &mut DebugTopicChannel<P>,
    response: DebugResponse,
)
    requires
        call_ensures(DebugTopicChannel::<P>::answer, (channel, response), ()),
    ensures
        final(channel)@.inbox == old(channel)@.inbox,
        final(channel)@.outbox.len() == old(channel)@.outbox.len() + 1,
        final(channel)@.outbox.drop_last() == old(channel)@.outbox,
        final(channel)@.outbox.last() == response@,
        old(channel)@.pending > 0 ==> final(channel)@.pending == old(channel)@.pending - 1,
        old(channel)@.pending == 0 ==> final(channel)@.pending == usize::MAX,
        final(channel).owner_gate == old(channel).owner_gate,
        final(channel).runtime_gate == old(channel).runtime_gate,
{
    assert(old(channel)@.outbox.push(response@).drop_last() =~= old(channel)@.outbox);
}

// ---------------------------------------------------------------------------
// Handlers
// ---------------------------------------------------------------------------

/// `result` is what goes to the wire for `outcome`: the answer that the handler
/// gave, or the server error that says how it failed.
pub open spec fn stands_for(
    result: Result<JsonTree, WireErrorView>,
    outcome: HandlerOutcome,
) -> bool {
    match outcome {
        HandlerOutcome::Encoded(value) => result == Ok::<JsonTree, WireErrorView>(
            crate::json::json_tree(value),
        ),
        _ => {
            &&& result is Err
            &&& result->Err_0.code == DebugWireErrorCode::ServerError(
                match outcome {
                    HandlerOutcome::Failed(_) => DebugServerError::HandlerError,
                    HandlerOutcome::ParamsInvalid => DebugServerError::PluginUnavailable,
                    HandlerOutcome::Panicked => DebugServerError::PluginUnavailable,
                    _ => DebugServerError::InternalError,
                },
            )
            &&& result->Err_0.message == match outcome {
                HandlerOutcome::Failed(error) => error.0@,
                HandlerOutcome::Unencodable(message) => message@,
                HandlerOutcome::TypeMismatch => "queued request type mismatch"@,
                HandlerOutcome::ExtraReferences => "queued request has extra references"@,
                HandlerOutcome::ParamsInvalid => "handler params no longer valid"@,
                _ => "debug handler panicked"@,
            }
        },
    }
}

/// Only what a handler answered is an answer; what it refused is its own error
/// with its own message, and every other way to end says what went wrong.
pub proof fn outcomes_keep_their_meaning(
    outcome: HandlerOutcome,
    r: Result<Value, DebugWireError>,
)
    requires
        call_ensures(handler_result, (outcome,), r),
    ensures
        r is Ok <==> outcome is Encoded,
        stands_for(
            match r {
                Ok(value) => Ok(crate::json::json_tree(value)),
                Err(error) => Err(WireErrorView { code: error.code, message: error.message@ }),
            },
            outcome,
        ),
{
}

/// The handler was called for the first requests of a topic, in order, and
/// each got the answer that stands for its own outcome.
pub open spec fn handled_in_order<P, H: Fn(P) -> HandlerOutcome>(
    handler: H,
    before: ChannelView<P>,
    after: ChannelView<P>,
    outcomes: Seq<HandlerOutcome>,
) -> bool {
    let count = outcomes.len() as int;
    let done = before.outbox.len() as int;
    &&& count <= before.inbox.len()
    &&& after.inbox == before.inbox.skip(count)
    &&& after.outbox.len() == done + count
    &&& forall|i: int| 0 <= i < done ==> #[trigger] after.outbox[i] == before.outbox[i]
    &&& forall|i: int|
        0 <= i < count ==> {
            let answer = after.outbox[done + i];
            let request = before.inbox[i];
            &&& handler.ensures((request.payload,), #[trigger] outcomes[i])
            &&& stands_for(answer.result, outcomes[i])
            &&& answer.id == request.id
            &&& answer.generation == request.generation
        }
    &&& before.pending >= count ==> after.pending == before.pending - count
}

/// Every request of a topic is handled once and in order and answered for its
/// own connection, until none is left or the handler panics: that is answered
/// too, ends the run with an error and leaves the rest waiting.
pub proof fn handler_answers_every_request<P, H: Fn(P) -> HandlerOutcome>(
    system: &DebugHandlerSystem<H>,
    channel: &mut DebugTopicChannel<P>,
    r: Result<(), PluginError>,
)
    requires
        call_ensures(DebugHandlerSystem::<H>::run::<P>, (system, channel), r),
    ensures
        exists|outcomes: Seq<HandlerOutcome>|
            {
                &&& #[trigger] handled_in_order(
                    system.handler,
                    old(channel)@,
                    final(channel)@,
                    outcomes,
                )
                &&& r is Ok ==> final(channel)@.inbox.len() == 0
                &&& r is Err <==> outcomes.len() > 0 && outcomes.last() is Panicked
                &&& forall|i: int|
                    0 <= i < outcomes.len() - 1 ==> !(#[trigger] outcomes[i] is Panicked)
            },
        r matches Err(error) ==> error == PluginError::Message(
            "debug handler panicked; retiring owner debug routes",
        ),
{
    let outcomes = choose|outcomes: Seq<HandlerOutcome>| #[trigger]
        crate::debug_topic::handler_run(
            system.handler,
            old(channel)@,
            final(channel)@,
            outcomes,
            r,
        );
    lemma_handled(system.handler, old(channel)@, final(channel)@, outcomes, r);
}

proof fn lemma_handled<P, H: Fn(P) -> HandlerOutcome>(
    handler: H,
    before: ChannelView<P>,
    after: ChannelView<P>,
    outcomes: Seq<HandlerOutcome>,
    r: Result<(), PluginError>,
)
    requires
        crate::debug_topic::handler_run(handler, before, after, outcomes, r),
    ensures
        handled_in_order(handler, before, after, outcomes),
{
    let answers = crate::debug_topic::answers(before.inbox, outcomes);
    assert forall|i: int| 0 <= i < outcomes.len() implies after.outbox[before.outbox.len() + i]
        == #[trigger] answers[i] by {}
    assert forall|i: int| 0 <= i < outcomes.len() implies {
        let answer = after.outbox[before.outbox.len() + i];
        let request = before.inbox[i];
        &&& handler.ensures((request.payload,), #[trigger] outcomes[i])
        &&& stands_for(answer.result, outcomes[i])
        &&& answer.id == request.id
        &&& answer.generation == request.generation
    } by {
        assert(answers[i].id == before.inbox[i].id);
    }
    if before.pending >= outcomes.len() {
        crate::debug_topic::released_counts_down(before.pending, outcomes.len());
    }
}

// ---------------------------------------------------------------------------
// Relay
// ---------------------------------------------------------------------------

/// The oldest request of a topic was handed in, given the request that its
/// payload is. It goes into the slot only where the slot can be had, and then
/// its id is in flight behind the others; one that is no request of this topic
/// is answered so at once. No other request is touched.
pub open spec fn handed_in<P, Req>(
    before: (ChannelView<P>, Seq<(JsonTree, u64)>, Option<Arc<Req>>),
    after: (ChannelView<P>, Seq<(JsonTree, u64)>, Option<Arc<Req>>),
    access: SlotAccess,
    typed: Option<Arc<Req>>,
) -> bool {
    let front = before.0.inbox[0];
    match typed {
        Some(request) => if access == SlotAccess::Free {
            &&& after.0.inbox == before.0.inbox.skip(1)
            &&& after.0.outbox == before.0.outbox
            &&& after.0.pending == before.0.pending
            &&& after.1 == before.1.push((front.id, front.generation))
            &&& after.2 == Some(request)
        } else {
            after == before
        },
        None => {
            &&& after.0.inbox == before.0.inbox.skip(1)
            &&& after.0.outbox.len() == before.0.outbox.len() + 1
            &&& after.0.outbox.drop_last() == before.0.outbox
            &&& after.0.outbox.last().id == front.id
            &&& after.0.outbox.last().generation == front.generation
            &&& stands_for(after.0.outbox.last().result, HandlerOutcome::TypeMismatch)
            &&& before.0.pending > 0 ==> after.0.pending == before.0.pending - 1
            &&& after.1 == before.1
            &&& after.2 == before.2
        },
    }
}

proof fn lemma_handed_in<P, Req>(
    before: (ChannelView<P>, Seq<(JsonTree, u64)>, Option<Arc<Req>>),
    access: SlotAccess,
    typed: Option<Arc<Req>>,
)
    ensures
        handed_in(
            before,
            crate::debug_relay::delivered(before.0, before.1, before.2, access, typed),
            access,
            typed,
        ),
{
    let answer = AnswerView {
        id: before.0.inbox[0].id,
        result: crate::debug_topic::wire_result(HandlerOutcome::TypeMismatch),
        generation: before.0.inbox[0].generation,
    };
    assert(before.0.outbox.push(answer).drop_last() =~= before.0.outbox);
}

/// The request that is handed into a callback is the oldest that waits.
pub proof fn oldest_request_is_handed_in<P, Req>(
    relay: &mut CallbackRelaySystem,
    channel: &mut DebugTopicChannel<P>,
    slot: &mut SharedSlot<Req>,
    access: SlotAccess,
    typed: Option<Arc<Req>>,
)
    requires
        call_ensures(
            CallbackRelaySystem::deliver_front::<P, Req>,
            (relay, channel, slot, access, typed),
            (),
        ),
    ensures
        handed_in(
            (old(channel)@, old(relay)@, old(slot)@),
            (final(channel)@, final(relay)@, final(slot)@),
            access,
            typed,
        ),
{
    lemma_handed_in((old(channel)@, old(relay)@, old(slot)@), access, typed);
}

/// The oldest id in flight was answered with `outcome`, for its own connection.
pub open spec fn oldest_answered<P>(
    before: (ChannelView<P>, Seq<(JsonTree, u64)>),
    after: (ChannelView<P>, Seq<(JsonTree, u64)>),
    outcome: HandlerOutcome,
) -> bool {
    &&& after.1 == before.1.skip(1)
    &&& after.0.inbox == before.0.inbox
    &&& after.0.outbox.len() == before.0.outbox.len() + 1
    &&& after.0.outbox.drop_last() == before.0.outbox
    &&& after.0.outbox.last().id == before.1[0].0
    &&& after.0.outbox.last().generation == before.1[0].1
    &&& stands_for(after.0.outbox.last().result, outcome)
    &&& before.0.pending > 0 ==> after.0.pending == before.0.pending - 1
}

/// `outcome` says what the callback answered: its error as that error, its value
/// as what encoding made of it.
pub open spec fn says<Res, E: Fn(Res) -> Result<Value, String>>(
    outcome: HandlerOutcome,
    response: Result<Res, DebugHandlerError>,
    encode: E,
) -> bool {
    match response {
        Err(error) => outcome == HandlerOutcome::Failed(error),
        Ok(value) => {
            ||| outcome matches HandlerOutcome::Encoded(json) && encode.ensures((value,), Ok(json))
            ||| outcome matches HandlerOutcome::Unencodable(message) && encode.ensures(
                (value,),
                Err(message),
            )
        },
    }
}

proof fn lemma_collected<P>(
    channel: ChannelView<P>,
    in_flight: Seq<(JsonTree, u64)>,
    outcome: HandlerOutcome,
)
    ensures
        oldest_answered(
            (channel, in_flight),
            crate::debug_relay::collected(channel, in_flight, Some(outcome)),
            outcome,
        ),
{
    let answer = AnswerView {
        id: in_flight[0].0,
        result: crate::debug_topic::wire_result(outcome),
        generation: in_flight[0].1,
    };
    assert(channel.outbox.push(answer).drop_last() =~= channel.outbox);
}

/// A response answers the oldest id in flight with what the callback said. One
/// without an id in flight is dropped; one that cannot be taken goes back to
/// its slot, and where that fails too only its id is given up.
pub proof fn response_answers_the_oldest<P, Res, E: Fn(Res) -> Result<Value, String>>(
    relay: &mut CallbackRelaySystem,
    channel: &mut DebugTopicChannel<P>,
    slot: &mut SharedSlot<Result<Res, DebugHandlerError>>,
    access: SlotAccess,
    taken: Result<Result<Res, DebugHandlerError>, Arc<Result<Res, DebugHandlerError>>>,
    encode: &E,
)
    requires
        call_ensures(
            CallbackRelaySystem::collect_taken::<P, Res, E>,
            (relay, channel, slot, access, taken, encode),
            (),
        ),
    ensures
        old(relay)@.len() == 0 ==> final(channel)@ == old(channel)@ && final(relay)@ == old(relay)@
            && final(slot)@ == old(slot)@,
        old(relay)@.len() > 0 && taken is Ok ==> {
            &&& final(slot)@ == old(slot)@
            &&& exists|outcome: HandlerOutcome| #[trigger]
                oldest_answered(
                    (old(channel)@, old(relay)@),
                    (final(channel)@, final(relay)@),
                    outcome,
                ) && says(outcome, taken->Ok_0, *encode)
        },
        old(relay)@.len() > 0 && taken is Err ==> {
            &&& final(channel)@ == old(channel)@
            &&& if access == SlotAccess::Free {
                final(slot)@ == Some(taken->Err_0) && final(relay)@ == old(relay)@
            } else {
                final(slot)@ == old(slot)@ && final(relay)@ == old(relay)@.skip(1)
            }
        },
{
    if old(relay)@.len() > 0 && taken is Ok {
        let outcome = choose|outcome: HandlerOutcome|
            {
                &&& #[trigger] crate::debug_relay::encoded(*encode, taken->Ok_0, outcome)
                &&& (final(channel)@, final(relay)@) == crate::debug_relay::collected(
                    old(channel)@,
                    old(relay)@,
                    Some(outcome),
                )
            };
        lemma_collected(old(channel)@, old(relay)@, outcome);
        assert(oldest_answered(
            (old(channel)@, old(relay)@),
            (final(channel)@, final(relay)@),
            outcome,
        ));
    }
}

/// One run of the relay hands in at most the oldest request, and only into a
/// slot that is seen to be free and empty; then it answers at most the oldest id
/// in flight, and only with the response that was there.
pub proof fn relay_moves_one_each_way<
    P,
    Req,
    Res,
    D: Fn(&P) -> Option<Arc<Req>>,
    E: Fn(Res) -> Result<Value, String>,
>(
    relay: &mut CallbackRelaySystem,
    channel: &mut DebugTopicChannel<P>,
    endpoints: &mut CallbackDebugEndpoints<Req, Res>,
    access: RelayAccess,
    downcast: &D,
    encode: &E,
)
    requires
        call_ensures(
            CallbackRelaySystem::run::<P, Req, Res, D, E>,
            (relay, channel, endpoints, access, downcast, encode),
            (),
        ),
    ensures
        exists|middle: (ChannelView<P>, Seq<(JsonTree, u64)>)| #[trigger]
            relayed(
                (old(channel)@, old(relay)@, old(endpoints).request@),
                old(endpoints).response@,
                middle,
                (final(channel)@, final(relay)@, final(endpoints).request@),
                final(endpoints).response@,
                access,
                *downcast,
                *encode,
            ),
{
    let middle = choose|middle: (ChannelView<P>, Seq<(JsonTree, u64)>)|
        {
            &&& crate::debug_relay::delivery(
                *downcast,
                access,
                (old(channel)@, old(relay)@, old(endpoints).request@),
                (middle.0, middle.1, final(endpoints).request@),
            )
            &&& #[trigger] crate::debug_relay::collection(
                *encode,
                access,
                (middle.0, middle.1, old(endpoints).response@),
                (final(channel)@, final(relay)@, final(endpoints).response@),
            )
        };
    lemma_relayed(
        (old(channel)@, old(relay)@, old(endpoints).request@),
        old(endpoints).response@,
        middle,
        (final(channel)@, final(relay)@, final(endpoints).request@),
        final(endpoints).response@,
        access,
        *downcast,
        *encode,
    );
}

/// What one run of the relay did, by way of `middle`.
pub open spec fn relayed<
    P,
    Req,
    Res,
    D: Fn(&P) -> Option<Arc<Req>>,
    E: Fn(Res) -> Result<Value, String>,
>(
    before: (ChannelView<P>, Seq<(JsonTree, u64)>, Option<Arc<Req>>),
    response: Option<Arc<Result<Res, DebugHandlerError>>>,
    middle: (ChannelView<P>, Seq<(JsonTree, u64)>),
    after: (ChannelView<P>, Seq<(JsonTree, u64)>, Option<Arc<Req>>),
    response_after: Option<Arc<Result<Res, DebugHandlerError>>>,
    access: RelayAccess,
    downcast: D,
    encode: E,
) -> bool {
    &&& if access.probe == SlotAccess::Free && before.2 is None && before.0.inbox.len() > 0 {
        exists|typed: Option<Arc<Req>>| #[trigger]
            downcast.ensures((&before.0.inbox[0].payload,), typed) && handed_in(
                before,
                (middle.0, middle.1, after.2),
                access.deliver,
                typed,
            )
    } else {
        middle.0 == before.0 && middle.1 == before.1 && after.2 == before.2
    }
    &&& if access.collect == SlotAccess::Contended || response is None {
        (after.0, after.1) == middle && response_after == response
    } else if middle.1.len() == 0 {
        (after.0, after.1) == middle && response_after is None
    } else {
        ||| response_after is None && exists|outcome: HandlerOutcome| #[trigger]
            oldest_answered(middle, (after.0, after.1), outcome) && says(
                outcome,
                *response->Some_0,
                encode,
            )
        ||| access.put_back == SlotAccess::Free && (after.0, after.1) == middle && response_after
            == response
        ||| access.put_back != SlotAccess::Free && after.0 == middle.0 && after.1 == middle.1.skip(
            1,
        ) && response_after is None
    }
}

proof fn lemma_relayed<
    P,
    Req,
    Res,
    D: Fn(&P) -> Option<Arc<Req>>,
    E: Fn(Res) -> Result<Value, String>,
>(
    before: (ChannelView<P>, Seq<(JsonTree, u64)>, Option<Arc<Req>>),
    response: Option<Arc<Result<Res, DebugHandlerError>>>,
    middle: (ChannelView<P>, Seq<(JsonTree, u64)>),
    after: (ChannelView<P>, Seq<(JsonTree, u64)>, Option<Arc<Req>>),
    response_after: Option<Arc<Result<Res, DebugHandlerError>>>,
    access: RelayAccess,
    downcast: D,
    encode: E,
)
    requires
        crate::debug_relay::delivery(downcast, access, before, (middle.0, middle.1, after.2)),
        crate::debug_relay::collection(
            encode,
            access,
            (middle.0, middle.1, response),
            (after.0, after.1, response_after),
        ),
    ensures
        relayed(before, response, middle, after, response_after, access, downcast, encode),
{
    if access.probe == SlotAccess::Free && before.2 is None && before.0.inbox.len() > 0 {
        let typed = choose|typed: Option<Arc<Req>>|
            {
                &&& #[trigger] downcast.ensures((&before.0.inbox[0].payload,), typed)
                &&& (middle.0, middle.1, after.2) == crate::debug_relay::delivered(
                    before.0,
                    before.1,
                    before.2,
                    access.deliver,
                    typed,
                )
            };
        lemma_handed_in(before, access.deliver, typed);
    }
    if access.collect != SlotAccess::Contended && response is Some && middle.1.len() > 0 {
        let held = response->Some_0;
        let taken = choose|
            taken: Result<Result<Res, DebugHandlerError>, Arc<Result<Res, DebugHandlerError>>>,
        |
            {
                &&& #[trigger] crate::raw::unwraps(held, taken)
                &&& if taken is Ok {
                    exists|outcome: HandlerOutcome|
                        {
                            &&& #[trigger] crate::debug_relay::encoded(encode, *held, outcome)
                            &&& (after.0, after.1) == crate::debug_relay::collected(
                                middle.0,
                                middle.1,
                                Some(outcome),
                            )
                            &&& response_after is None
                        }
                } else {
                    &&& (after.0, after.1) == if access.put_back is Free {
                        (middle.0, middle.1)
                    } else {
                        crate::debug_relay::collected(middle.0, middle.1, None)
                    }
                    &&& response_after == crate::debug_relay::slot_after(
                        None,
                        access.put_back,
                        held,
                    )
                }
            };
        if taken is Ok {
            let outcome = choose|outcome: HandlerOutcome|
                {
                    &&& #[trigger] crate::debug_relay::encoded(encode, *held, outcome)
                    &&& (after.0, after.1) == crate::debug_relay::collected(
                        middle.0,
                        middle.1,
                        Some(outcome),
                    )
                    &&& response_after is None
                };
            lemma_collected(middle.0, middle.1, outcome);
            assert(oldest_answered(middle, (after.0, after.1), outcome));
        }
    }
}

/// A callback handles the request that waits for it, once: it is gone
/// afterwards, and what the handler made of it is left as the response where
/// that slot can be had. Without a request, or where its slot cannot be had,
/// nothing happens; a request that cannot be taken goes back.
pub proof fn callback_handles_what_waits<
    Req,
    Res,
    H: FnOnce(Req) -> Result<Res, DebugHandlerError>,
>(
    endpoints: &mut CallbackDebugEndpoints<Req, Res>,
    ctx: &CallbackCtx,
    access: EndpointAccess,
    handler: H,
    r: bool,
)
    requires
        call_ensures(
            CallbackDebugEndpoints::<Req, Res>::handle_pending::<H>,
            (endpoints, ctx, access, handler),
            r,
        ),
    ensures
        r ==> {
            &&& old(endpoints).request@ is Some && access.take != SlotAccess::Contended
            &&& final(endpoints).request@ is None
            &&& exists|outcome: Result<Res, DebugHandlerError>| #[trigger]
                handler.ensures((*old(endpoints).request@->Some_0,), outcome) && final(
                    endpoints).response@ == if access.answer == SlotAccess::Free {
                    Some(Arc::new(outcome))
                } else {
                    old(endpoints).response@
                }
        },
        !r ==> final(endpoints).response@ == old(endpoints).response@,
        !r && (old(endpoints).request@ is None || access.take == SlotAccess::Contended
            || access.put_back == SlotAccess::Free) ==> final(endpoints).request@ == old(
            endpoints).request@,
{
    if r {
        let request = old(endpoints).request@->Some_0;
        let outcome = choose|outcome: Result<Res, DebugHandlerError>|
            {
                &&& #[trigger] handler.ensures((*request,), outcome)
                &&& final(endpoints).response@ == crate::debug_relay::slot_after(
                    old(endpoints).response@,
                    access.answer,
                    Arc::new(outcome),
                )
            };
        assert(handler.ensures((*request,), outcome));
    }
}

/// A request that could be taken out is handled once, and its outcome is the
/// response where the slot is free; one that could not is put back where it
/// can be, and nothing is answered.
pub proof fn taken_request_is_handled_once<
    Req,
    Res,
    H: FnOnce(Req) -> Result<Res, DebugHandlerError>,
>(
    endpoints: &mut CallbackDebugEndpoints<Req, Res>,
    taken: Result<Req, Arc<Req>>,
    access: EndpointAccess,
    handler: H,
    r: bool,
)
    requires
        call_ensures(
            CallbackDebugEndpoints::<Req, Res>::handle_taken::<H>,
            (endpoints, taken, access, handler),
            r,
        ),
    ensures
        r <==> taken is Ok,
        taken matches Ok(request) ==> {
            &&& final(endpoints).request@ == old(endpoints).request@
            &&& exists|outcome: Result<Res, DebugHandlerError>| #[trigger]
                handler.ensures((request,), outcome) && final(endpoints).response@ == if access.answer
                    == SlotAccess::Free {
                    Some(Arc::new(outcome))
                } else {
                    old(endpoints).response@
                }
        },
        taken matches Err(arc) ==> {
            &&& final(endpoints).response@ == old(endpoints).response@
            &&& access.put_back == SlotAccess::Free ==> final(endpoints).request@ == Some(arc)
            &&& access.put_back != SlotAccess::Free ==> final(endpoints).request@ == old(
                endpoints).request@
        },
{
    if let Ok(request) = taken {
        let outcome = choose|outcome: Result<Res, DebugHandlerError>|
            {
                &&& #[trigger] handler.ensures((request,), outcome)
                &&& final(endpoints).response@ == crate::debug_relay::slot_after(
                    old(endpoints).response@,
                    access.answer,
                    Arc::new(outcome),
                )
            };
        assert(handler.ensures((request,), outcome));
    }
}

/// Releasing a slot frees one of those that are taken and touches no message.
pub proof fn releasing_frees_one_slot<P>(channel: &mut DebugTopicChannel<P>)
    requires
        old(channel)@.pending > 0,
        call_ensures(DebugTopicChannel::<P>::leave_pending, (channel,), ()),
    ensures
        final(channel)@.pending + 1 == old(channel)@.pending,
        final(channel)@.inbox == old(channel)@.inbox,
        final(channel)@.outbox == old(channel)@.outbox,
        final(channel).owner_gate == old(channel).owner_gate,
        final(channel).runtime_gate == old(channel).runtime_gate,
{
}

} // verus!
