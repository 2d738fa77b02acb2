//! What holds of the debug control plane as a whole.

use vstd::prelude::*;

use crate::debug_dispatch::{DispatchReply, DispatchScope, DispatchView};
use crate::debug_topic::{AnswerView, ChannelView, DebugServerError};
use crate::debug_transport::{RequestView, TransportView};
use crate::json::JsonTree;

verus! {

/// The queues of the transport hold no more than their limits, and no id is
/// active twice.
pub open spec fn transport_bounded(state: TransportView) -> bool {
    &&& state.inbox.len() <= crate::debug_transport::MAX_INBOX_REQUESTS
    &&& state.outbox.len() <= crate::debug_transport::MAX_OUTBOX_RESPONSES
    &&& state.active.no_duplicates()
}

/// No channel has more pending requests than the ceiling.
pub open spec fn channels_bounded<P>(channels: Seq<ChannelView<P>>) -> bool {
    forall|i: int|
        0 <= i < channels.len() ==> (#[trigger] channels[i]).pending
            <= crate::debug_topic::DEBUG_MAX_PENDING
}

/// Whatever a client sends, the queues of the transport stay bounded and no id
/// is active twice.
pub proof fn frames_stay_bounded(
    state: TransportView,
    parsed: Option<JsonTree>,
    generation: u64,
)
    requires
        transport_bounded(state),
    ensures
        transport_bounded(crate::debug_transport::frame_handled(state, parsed, generation)),
{
    if let Some(tree) = parsed {
        let id = crate::debug_transport::member_or_null(tree, "id"@);
        let key = crate::debug_transport::tracked_key(id);
        if key is Some && !state.active.contains(key->Some_0) {
            let pushed = state.active.push(key->Some_0);
            assert(pushed.no_duplicates()) by {
                assert forall|i: int, j: int|
                    0 <= i < pushed.len() && 0 <= j < pushed.len() && i != j implies pushed[i]
                    != pushed[j] by {
                    if i == state.active.len() {
                        assert(state.active.contains(state.active[j]));
                    } else if j == state.active.len() {
                        assert(state.active.contains(state.active[i]));
                    }
                }
            }
        }
    }
}

/// Routing keeps the queues bounded and no id active twice.
pub proof fn dispatch_stays_bounded<P>(
    state: DispatchView<P>,
    scope: DispatchScope,
    request: RequestView,
    reply: DispatchReply<P>,
)
    requires
        transport_bounded(state.0),
        channels_bounded(state.1),
        scope.names.len() == scope.open.len() == state.1.len() <= usize::MAX,
    ensures
        transport_bounded(crate::debug_dispatch::dispatched(state, scope, request, reply).0),
        channels_bounded(crate::debug_dispatch::dispatched(state, scope, request, reply).1),
{
    crate::debug_dispatch::named_in_range(scope.names, request.method);
    if let crate::debug_dispatch::Route::Decode(topic) = crate::debug_dispatch::route(
        scope,
        request,
        reply.introspected is Some,
    ) {
        assert(state.1[topic as int].pending <= crate::debug_topic::DEBUG_MAX_PENDING);
    }
}

/// Draining answers keeps the queues bounded.
pub proof fn drain_stays_bounded(transport: TransportView, answers: Seq<AnswerView>, current: u64)
    requires
        transport_bounded(transport),
    ensures
        transport_bounded(crate::debug_dispatch::drained(transport, answers, current)),
    decreases answers.len(),
{
    if answers.len() > 0 {
        drain_stays_bounded(transport, answers.drop_last(), current);
    }
}

/// A request whose connection is gone is dropped: it changes nothing.
pub proof fn stale_request_is_dropped<P>(
    state: DispatchView<P>,
    scope: DispatchScope,
    request: RequestView,
    reply: DispatchReply<P>,
)
    requires
        request.generation != scope.current,
    ensures
        crate::debug_dispatch::dispatched(state, scope, request, reply) == state,
{
}

/// Answers whose connection is gone are dropped: whatever is drained, the wire
/// only gets bodies of the current connection behind what it had.
pub proof fn stale_answers_are_dropped(
    transport: TransportView,
    answers: Seq<AnswerView>,
    current: u64,
)
    ensures
        ({
            let after = crate::debug_dispatch::drained(transport, answers, current);
            &&& transport.outbox.is_prefix_of(after.outbox)
            &&& forall|i: int|
                transport.outbox.len() <= i < after.outbox.len() ==> (#[trigger] after.outbox[i]).generation
                    == current
        }),
    decreases answers.len(),
{
    if answers.len() > 0 {
        stale_answers_are_dropped(transport, answers.drop_last(), current);
    }
}

/// A new connection starts without leftovers of the connections before it.
pub proof fn connection_starts_clean(
    outbox: Seq<crate::debug_transport::WireView>,
    generation: u64,
)
    ensures
        forall|i: int|
            0 <= i < crate::debug_transport::of_generation(outbox, generation).len()
                ==> (#[trigger] crate::debug_transport::of_generation(
                outbox,
                generation,
            )[i]).generation == generation,
    decreases outbox.len(),
{
    if outbox.len() > 0 {
        connection_starts_clean(outbox.drop_last(), generation);
    }
}

/// After a global failure every request of the connection is answered
/// `runtime_unavailable`, whatever it asks for, and reaches no topic.
pub proof fn closed_runtime_answers_unavailable<P>(
    state: DispatchView<P>,
    scope: DispatchScope,
    request: RequestView,
    reply: DispatchReply<P>,
)
    requires
        scope.runtime_failed,
        request.generation == scope.current,
    ensures
        crate::debug_dispatch::dispatched(state, scope, request, reply) == (
            crate::debug_transport::rejected(
                state.0,
                request.id,
                -32000,
                Some(DebugServerError::RuntimeUnavailable.name()),
                "runtime unavailable"@,
                request.generation,
            ),
            state.1,
        ),
{
}

/// While the runtime gate is not open, a request that introspection does not
/// answer is answered `runtime_unavailable` and reaches no topic.
pub proof fn unopened_runtime_reaches_no_topic<P>(
    state: DispatchView<P>,
    scope: DispatchScope,
    request: RequestView,
    reply: DispatchReply<P>,
)
    requires
        !scope.runtime_open,
        request.generation == scope.current,
        reply.introspected is None,
    ensures
        crate::debug_dispatch::dispatched(state, scope, request, reply) == (
            crate::debug_transport::rejected(
                state.0,
                request.id,
                -32000,
                Some(DebugServerError::RuntimeUnavailable.name()),
                "runtime unavailable"@,
                request.generation,
            ),
            state.1,
        ),
{
}

/// A request only reaches a topic whose gates are open, and only one topic.
pub proof fn only_open_topics_are_reached<P>(
    state: DispatchView<P>,
    scope: DispatchScope,
    request: RequestView,
    reply: DispatchReply<P>,
    topic: int,
)
    requires
        0 <= topic < state.1.len(),
        scope.names.len() == scope.open.len() == state.1.len() <= usize::MAX,
        crate::debug_dispatch::dispatched(state, scope, request, reply).1[topic] != state.1[topic],
    ensures
        scope.runtime_open,
        scope.open[topic],
        scope.names[topic] == request.method,
        request.generation == scope.current,
{
    crate::debug_dispatch::named_in_range(scope.names, request.method);
}

/// An id whose answer was written is not active any more, and every other id
/// is as active as before.
pub proof fn answered_id_is_free(ids: Seq<Seq<char>>, key: Seq<char>, other: Seq<char>)
    ensures
        !crate::debug_transport::without(ids, key).contains(key),
        other != key ==> (crate::debug_transport::without(ids, key).contains(other)
            <==> ids.contains(other)),
    decreases ids.len(),
{
    if ids.len() > 0 {
        answered_id_is_free(ids.drop_last(), key, other);
        let rest = crate::debug_transport::without(ids.drop_last(), key);
        let whole = crate::debug_transport::without(ids, key);
        if ids.last() != key {
            assert forall|x: Seq<char>| whole.contains(x) <==> rest.contains(x) || x
                == ids.last() by {
                if rest.contains(x) {
                    let i = choose|i: int| 0 <= i < rest.len() && rest[i] == x;
                    assert(whole[i] == x);
                }
                if x == ids.last() {
                    assert(whole[rest.len() as int] == x);
                }
            }
        }
        assert(ids.contains(other) <==> ids.drop_last().contains(other) || other == ids.last()) by {
            if ids.contains(other) {
                let i = choose|i: int| 0 <= i < ids.len() && ids[i] == other;
                if i < ids.len() - 1 {
                    assert(ids.drop_last()[i] == other);
                }
            }
            if ids.drop_last().contains(other) {
                let i = choose|i: int|
                    0 <= i < ids.drop_last().len() && ids.drop_last()[i] == other;
                assert(ids[i] == other);
            }
            if other == ids.last() {
                assert(ids[ids.len() - 1] == other);
            }
        }
    }
}

/// A request whose id is active is refused: it is answered with an error and
/// not queued a second time, and the id is still active when that error has
/// been written.
pub proof fn active_id_is_refused(state: TransportView, key: Seq<char>, request: RequestView)
    requires
        state.active.contains(key),
    ensures
        ({
            let after = crate::debug_transport::admitted(state, Some(key), request);
            &&& after.inbox == state.inbox
            &&& after.active == state.active
            &&& after == crate::debug_transport::refused(
                state,
                request.id,
                -32600,
                None,
                "duplicate active id"@,
                request.generation,
            )
            &&& state.outbox.len() < crate::debug_transport::MAX_OUTBOX_RESPONSES
                ==> crate::debug_transport::written(after, after.outbox.last()).active.contains(key)
        }),
{
}

/// Only the answer to a request that was taken in frees an id: writing the
/// refusal of a frame changes nothing, and writing an answer frees the id that
/// it bears and no other.
pub proof fn only_its_own_answer_frees_an_id(
    state: TransportView,
    response: crate::debug_transport::WireView,
    key: Seq<char>,
)
    requires
        state.active.contains(key),
    ensures
        crate::debug_transport::written(state, response).active.contains(key) <==> !(
        response.answers && crate::debug_transport::body_key(response.body) == Some(key)),
{
    if let Some(freed) = crate::debug_transport::body_key(response.body) {
        answered_id_is_free(state.active, freed, key);
    }
}

} // verus!
