//! The dispatch system of the debug control plane.
//!
//! Routes wire requests into topic channels and drains responses back to the
//! wire. Every route into a topic requires the runtime gate and the owner
//! plugin gate; built-in introspection is answered before the runtime gate has
//! opened, too. After a global failure all new requests are answered
//! `runtime_unavailable`.

use serde_json::Value;
use vstd::prelude::*;

use crate::base::OwnerId;
use crate::debug_topic::{
    AnswerView, ChannelView, DebugResponse, DebugServerError, DebugTopicChannel,
    DebugWireErrorCode, QueuedView,
};
use crate::debug_transport::{DebugTransport, RequestView, TransportView, WireRequest};
use crate::gate::GateBoard;
use crate::json::{json_clone, JsonTree};
use crate::text::same_text;

verus! {

/// One registered topic. `decode` turns wire params into the topic's payload.
pub struct DebugTopicView<P, D> {
    pub name: &'static str,
    pub owner: OwnerId,
    pub channel: DebugTopicChannel<P>,
    pub decode: D,
}

/// Registration request of one topic.
pub struct DebugTopicRegistration<P, D> {
    pub name: &'static str,
    pub channel: DebugTopicChannel<P>,
    pub decode: D,
    /// `true` for callback-domain topics (the handler runs on natural hook
    /// entry through the shared slots), `false` for main-domain topics (the
    /// handler runs as an Update system).
    pub callback_domain: bool,
}

/// Runtime introspection data for the built-in `runtime.*` topics. The
/// runtime supplies the implementation; snapshots are read-only.
pub trait DebugIntrospection: Sized {
    /// Payloads of the built-in topics; `None` for any other method.
    fn introspect(&self, method: &str) -> Option<Value>;
}

/// `reply` is a possible answer of `introspection` to `method`.
pub open spec fn introspects<I: DebugIntrospection>(
    introspection: &I,
    method: Seq<char>,
    reply: Option<Value>,
) -> bool {
    exists|name: &str|
        name@ == method && #[trigger] call_ensures(I::introspect, (introspection, name), reply)
}

/// Wire number of an error code.
pub open spec fn wire_code(code: DebugWireErrorCode) -> int {
    match code {
        DebugWireErrorCode::MethodNotFound => -32601,
        DebugWireErrorCode::InvalidParams => -32602,
        DebugWireErrorCode::ServerError(_) => -32000,
    }
}

/// Wire number of an error code.
pub fn map_wire_code(code: DebugWireErrorCode) -> (r: i64)
    ensures
        r == wire_code(code),
{
    match code {
        DebugWireErrorCode::MethodNotFound => -32601,
        DebugWireErrorCode::InvalidParams => -32602,
        DebugWireErrorCode::ServerError(_) => -32000,
    }
}

/// The body that an answer is written as.
pub open spec fn answer_body(answer: AnswerView) -> JsonTree {
    match answer.result {
        Ok(value) => crate::debug_transport::ok_body(answer.id, value),
        Err(error) => crate::debug_transport::error_body(
            answer.id,
            wire_code(error.code),
            match error.code {
                DebugWireErrorCode::ServerError(server) => Some(server.name()),
                _ => None,
            },
            error.message,
        ),
    }
}

/// The transport after `answers`, of which those of other connections than
/// `current` are dropped.
pub open spec fn drained(
    transport: TransportView,
    answers: Seq<AnswerView>,
    current: u64,
) -> TransportView
    decreases answers.len(),
{
    if answers.len() == 0 {
        transport
    } else {
        let before = drained(transport, answers.drop_last(), current);
        let answer = answers.last();
        if answer.generation == current {
            crate::debug_transport::pushed(before, answer_body(answer), answer.generation)
        } else {
            before
        }
    }
}

/// The transport after the outboxes of the first `count` channels.
pub open spec fn drained_all<P>(
    transport: TransportView,
    channels: Seq<ChannelView<P>>,
    current: u64,
    count: nat,
) -> TransportView
    decreases count,
{
    if count == 0 {
        transport
    } else {
        drained(
            drained_all(transport, channels, current, (count - 1) as nat),
            channels[count - 1].outbox,
            current,
        )
    }
}

/// Channels with their outboxes emptied.
pub open spec fn emptied<P>(channels: Seq<ChannelView<P>>) -> Seq<ChannelView<P>> {
    channels.map_values(
        |channel: ChannelView<P>| ChannelView { outbox: Seq::empty(), ..channel },
    )
}

/// Hands one answer to the transport, if its connection is the current one.
fn drain_one(transport: &mut DebugTransport, response: DebugResponse, current: u64)
    ensures
        final(transport).gate() == old(transport).gate(),
        final(transport)@ == if response@.generation == current {
            crate::debug_transport::pushed(
                old(transport)@,
                answer_body(response@),
                response@.generation,
            )
        } else {
            old(transport)@
        },
{
    if response.generation != current {
        return ;
    }
    match response.result {
        Ok(value) => transport.respond_ok(response.id, value, response.generation),
        Err(error) => {
            let data_code: Option<&str> = match error.code {
                DebugWireErrorCode::ServerError(server) => Some(server.code_name()),
                _ => None,
            };
            transport.respond_error(
                response.id,
                map_wire_code(error.code),
                data_code,
                error.message.as_str(),
                response.generation,
            );
        },
    }
}

/// Hands the answers of one channel to the transport.
fn drain_channel<P>(
    transport: &mut DebugTransport,
    channel: &mut DebugTopicChannel<P>,
    current: u64,
)
    ensures
        final(transport).gate() == old(transport).gate(),
        final(transport)@ == drained(old(transport)@, old(channel)@.outbox, current),
        final(channel).same_gates(*old(channel)),
        final(channel)@ == (ChannelView { outbox: Seq::empty(), ..old(channel)@ }),
{
    let mut responses: Vec<DebugResponse> = Vec::new();
    std::mem::swap(&mut channel.outbox, &mut responses);
    assert(channel@.outbox =~= Seq::<AnswerView>::empty());
    let ghost all = responses@.map_values(|response: DebugResponse| response@);
    assert(all == old(channel)@.outbox);
    assert(all.take(0) =~= Seq::<AnswerView>::empty());
    for response in iter: responses
        invariant
            iter.seq() == responses@,
            all == responses@.map_values(|response: DebugResponse| response@),
            transport.gate() == old(transport).gate(),
            transport@ == drained(old(transport)@, all.take(iter.index() as int), current),
    {
        assert(all.take(iter.index() + 1).drop_last() =~= all.take(iter.index() as int));
        assert(all[iter.index() as int] == response@);
        drain_one(transport, response, current);
    }
    assert(all.take(all.len() as int) =~= all);
}

/// The topic that `method` names: the first one of that name.
pub open spec fn named(names: Seq<Seq<char>>, method: Seq<char>) -> Option<int>
    decreases names.len(),
{
    if names.len() == 0 {
        None
    } else {
        match named(names.drop_last(), method) {
            Some(index) => Some(index),
            None => if names.last() == method {
                Some(names.len() - 1)
            } else {
                None
            },
        }
    }
}

/// What stays the same while requests are dispatched: the names of the
/// topics, whether each may be dispatched to, whether the runtime gate is
/// open, whether it was closed by a global failure, and the current connection.
pub struct DispatchScope {
    pub names: Seq<Seq<char>>,
    pub open: Seq<bool>,
    pub runtime_open: bool,
    pub runtime_failed: bool,
    pub current: u64,
}

/// What the outside answers about one request.
pub struct DispatchReply<P> {
    /// The built-in answer, if there is one.
    pub introspected: Option<Value>,
    /// What the params decode to, where they are decoded.
    pub decoded: Result<P, String>,
}

/// Where a request goes.
pub enum Route {
    /// Its connection is gone: it is dropped.
    Dropped,
    /// It is answered by introspection.
    Introspected,
    /// It is answered `runtime_unavailable`.
    RuntimeUnavailable,
    /// It is answered that there is no such method.
    MethodNotFound,
    /// It is answered `plugin_unavailable`.
    PluginUnavailable,
    /// Its params are decoded for this topic.
    Decode(usize),
}

/// Where `request` goes, given whether introspection answers it.
pub open spec fn route(scope: DispatchScope, request: RequestView, introspected: bool) -> Route {
    if request.generation != scope.current {
        Route::Dropped
    } else if scope.runtime_failed {
        Route::RuntimeUnavailable
    } else if introspected {
        Route::Introspected
    } else if !scope.runtime_open {
        Route::RuntimeUnavailable
    } else {
        match named(scope.names, request.method) {
            None => Route::MethodNotFound,
            Some(topic) => if !scope.open[topic] {
                Route::PluginUnavailable
            } else {
                Route::Decode(topic as usize)
            },
        }
    }
}

/// Transport and channels.
pub type DispatchView<P> = (TransportView, Seq<ChannelView<P>>);

/// Transport and channel after a request whose params decode to `decoded`.
pub open spec fn delivered_to<P>(
    transport: TransportView,
    channel: ChannelView<P>,
    request: RequestView,
    decoded: Result<P, String>,
) -> (TransportView, ChannelView<P>) {
    let id = request.id;
    let generation = request.generation;
    match decoded {
        Err(message) => (
            crate::debug_transport::rejected(
                transport,
                id,
                -32602,
                None,
                "invalid params: "@ + message@,
                generation,
            ),
            channel,
        ),
        Ok(payload) => if channel.pending >= crate::debug_topic::DEBUG_MAX_PENDING {
            (
                crate::debug_transport::rejected(
                    transport,
                    id,
                    -32000,
                    Some(DebugServerError::QueueFull.name()),
                    "topic pending capacity reached"@,
                    generation,
                ),
                channel,
            )
        } else {
            (
                transport,
                ChannelView {
                    inbox: channel.inbox.push(QueuedView { id, payload, generation }),
                    outbox: channel.outbox,
                    pending: (channel.pending + 1) as usize,
                },
            )
        },
    }
}

/// Transport and channels after one request.
pub open spec fn dispatched<P>(
    state: DispatchView<P>,
    scope: DispatchScope,
    request: RequestView,
    reply: DispatchReply<P>,
) -> DispatchView<P> {
    let (transport, channels) = state;
    let id = request.id;
    let generation = request.generation;
    match route(scope, request, reply.introspected is Some) {
        Route::Dropped => state,
        Route::Introspected => (
            crate::debug_transport::pushed(
                transport,
                crate::debug_transport::ok_body(
                    id,
                    crate::json::json_tree(reply.introspected->Some_0),
                ),
                generation,
            ),
            channels,
        ),
        Route::RuntimeUnavailable => (
            crate::debug_transport::rejected(
                transport,
                id,
                -32000,
                Some(DebugServerError::RuntimeUnavailable.name()),
                "runtime unavailable"@,
                generation,
            ),
            channels,
        ),
        Route::MethodNotFound => (
            crate::debug_transport::rejected(
                transport,
                id,
                -32601,
                None,
                "method not found"@,
                generation,
            ),
            channels,
        ),
        Route::PluginUnavailable => (
            crate::debug_transport::rejected(
                transport,
                id,
                -32000,
                Some(DebugServerError::PluginUnavailable.name()),
                "plugin unavailable"@,
                generation,
            ),
            channels,
        ),
        Route::Decode(topic) => {
            let (transport, channel) = delivered_to(
                transport,
                channels[topic as int],
                request,
                reply.decoded,
            );
            (transport, channels.update(topic as int, channel))
        },
    }
}

/// Transport and channels after the first `count` requests.
pub open spec fn dispatched_all<P>(
    state: DispatchView<P>,
    scope: DispatchScope,
    requests: Seq<RequestView>,
    replies: Seq<DispatchReply<P>>,
    count: nat,
) -> DispatchView<P>
    decreases count,
{
    if count == 0 {
        state
    } else {
        dispatched(
            dispatched_all(state, scope, requests, replies, (count - 1) as nat),
            scope,
            requests[count - 1],
            replies[count - 1],
        )
    }
}

/// The names of `topics`.
pub open spec fn topic_names<P, D>(topics: Seq<DebugTopicView<P, D>>) -> Seq<Seq<char>> {
    topics.map_values(|topic: DebugTopicView<P, D>| topic.name@)
}

/// The channels of `topics`.
pub open spec fn topic_channels<P, D>(topics: Seq<DebugTopicView<P, D>>) -> Seq<ChannelView<P>> {
    topics.map_values(|topic: DebugTopicView<P, D>| topic.channel@)
}

/// Names, owners, decoders and gates are as in `other`.
pub open spec fn same_topics<P, D>(
    topics: Seq<DebugTopicView<P, D>>,
    other: Seq<DebugTopicView<P, D>>,
) -> bool {
    &&& topics.len() == other.len()
    &&& forall|i: int|
        0 <= i < topics.len() ==> {
            &&& (#[trigger] topics[i]).name == other[i].name
            &&& topics[i].owner == other[i].owner
            &&& topics[i].decode == other[i].decode
            &&& topics[i].channel.same_gates(other[i].channel)
        }
}

/// The scope of a run over `topics`.
pub open spec fn scope_of<P, D>(
    topics: Seq<DebugTopicView<P, D>>,
    transport: DebugTransport,
    board: GateBoard,
) -> DispatchScope {
    DispatchScope {
        names: topic_names(topics),
        open: topics.map_values(
            |topic: DebugTopicView<P, D>| topic.channel.is_dispatchable(board),
        ),
        runtime_open: transport.gate().state(board) is Open,
        runtime_failed: transport.gate().state(board) is FailedClosed,
        current: transport@.generation,
    }
}

/// `reply` is a possible answer of the outside about `request`.
pub open spec fn possible_reply<P, D: Fn(&Value) -> Result<P, String>, I: DebugIntrospection>(
    topics: Seq<DebugTopicView<P, D>>,
    scope: DispatchScope,
    introspection: Option<I>,
    request: WireRequest,
    reply: DispatchReply<P>,
) -> bool {
    &&& match introspection {
        Some(introspection) => request.generation == scope.current && !scope.runtime_failed
            ==> introspects(&introspection, request.method@, reply.introspected),
        None => reply.introspected is None,
    }
    &&& route(scope, request@, reply.introspected is Some) matches Route::Decode(topic)
        ==> topics[topic as int].decode.ensures((&request.params,), reply.decoded)
}

fn find_topic<P, D>(topics: &Vec<DebugTopicView<P, D>>, method: &str) -> (r: Option<usize>)
    ensures
        match named(topic_names(topics@), method@) {
            Some(index) => r is Some && r->Some_0 == index && 0 <= index < topics.len(),
            None => r is None,
        },
{
    let ghost names = topic_names(topics@);
    let mut index: usize = 0;
    assert(names.take(0) =~= Seq::<Seq<char>>::empty());
    while index < topics.len()
        invariant
            index <= topics.len(),
            names == topic_names(topics@),
            named(names.take(index as int), method@) is None,
        decreases topics.len() - index,
    {
        assert(names.take(index + 1).drop_last() =~= names.take(index as int));
        assert(names.take(index + 1).last() == topics@[index as int].name@);
        if same_text(topics[index].name, method) {
            proof {
                lemma_named_stays(names, method@, (index + 1) as nat, index as int);
            }
            return Some(index);
        }
        index = index + 1;
    }
    assert(names.take(index as int) =~= names);
    None
}

/// A named topic is one of the topics and bears the name, and no topic before
/// it does.
pub proof fn named_in_range(names: Seq<Seq<char>>, method: Seq<char>)
    ensures
        match named(names, method) {
            Some(index) => {
                &&& 0 <= index < names.len()
                &&& names[index] == method
                &&& forall|i: int| 0 <= i < index ==> #[trigger] names[i] != method
            },
            None => forall|i: int| 0 <= i < names.len() ==> #[trigger] names[i] != method,
        },
    decreases names.len(),
{
    if names.len() > 0 {
        named_in_range(names.drop_last(), method);
        assert forall|i: int|
            0 <= i < names.len() - 1 implies #[trigger] names[i] == names.drop_last()[i] by {}
    }
}

proof fn lemma_named_stays(names: Seq<Seq<char>>, method: Seq<char>, count: nat, found: int)
    requires
        count <= names.len(),
        named(names.take(count as int), method) == Some(found),
    ensures
        named(names, method) == Some(found),
    decreases names.len() - count,
{
    if count == names.len() {
        assert(names.take(count as int) =~= names);
    } else {
        assert(names.take(count as int + 1).drop_last() =~= names.take(count as int));
        lemma_named_stays(names, method, count + 1, found);
    }
}

/// Where `request` goes, given whether introspection answers it.
pub fn route_request<P, D>(
    transport: &DebugTransport,
    topics: &Vec<DebugTopicView<P, D>>,
    board: &GateBoard,
    request: &WireRequest,
    introspected: bool,
) -> (r: Route)
    requires
        transport.gate().stands_on(*board),
        forall|i: int| 0 <= i < topics.len() ==> (#[trigger] topics[i]).channel.gates_on(*board),
    ensures
        r == route(scope_of(topics@, *transport, *board), request@, introspected),
        r matches Route::Decode(topic) ==> topic < topics.len(),
{
    if request.generation != transport.current_generation() {
        return Route::Dropped;
    }
    if transport.runtime_gate().has_failed(board) {
        return Route::RuntimeUnavailable;
    }
    if introspected {
        return Route::Introspected;
    }
    if !transport.runtime_gate().is_open(board) {
        return Route::RuntimeUnavailable;
    }
    match find_topic(topics, request.method.as_str()) {
        None => Route::MethodNotFound,
        Some(topic) => if topics[topic].channel.dispatchable(board) {
            Route::Decode(topic)
        } else {
            Route::PluginUnavailable
        },
    }
}

/// Queues a decoded request in its topic, or answers why that cannot be done.
pub fn deliver<P, D>(
    transport: &mut DebugTransport,
    topics: &mut Vec<DebugTopicView<P, D>>,
    topic: usize,
    request: WireRequest,
    decoded: Result<P, String>,
)
    requires
        topic < old(topics).len(),
    ensures
        final(transport).gate() == old(transport).gate(),
        same_topics(final(topics)@, old(topics)@),
        ({
            let channel = old(topics)@[topic as int].channel@;
            let (transport_after, channel_after) = delivered_to(
                old(transport)@,
                channel,
                request@,
                decoded,
            );
            &&& final(transport)@ == transport_after
            &&& topic_channels(final(topics)@) == topic_channels(old(topics)@).update(
                topic as int,
                channel_after,
            )
        }),
{
    let ghost channels = topic_channels(topics@);
    match decoded {
        Err(message) => {
            let text: String = "invalid params: ".to_owned().concat(message.as_str());
            transport.respond_error(request.id, -32602, None, text.as_str(), request.generation);
            assert(channels.update(topic as int, channels[topic as int]) =~= channels);
        },
        Ok(payload) => {
            let id = json_clone(&request.id);
            let queued = topics[topic].channel.enqueue(id, payload, request.generation);
            if queued.is_err() {
                transport.respond_error(
                    request.id,
                    -32000,
                    Some(DebugServerError::QueueFull.code_name()),
                    "topic pending capacity reached",
                    request.generation,
                );
            }
            assert(topic_channels(topics@) =~= channels.update(
                topic as int,
                topics@[topic as int].channel@,
            ));
        },
    }
}

/// One request is routed with `reply`.
pub open spec fn dispatch_step<P, D: Fn(&Value) -> Result<P, String>, I: DebugIntrospection>(
    introspection: Option<I>,
    scope: DispatchScope,
    topics: Seq<DebugTopicView<P, D>>,
    before: DispatchView<P>,
    after: DispatchView<P>,
    request: WireRequest,
    reply: DispatchReply<P>,
) -> bool {
    &&& possible_reply(topics, scope, introspection, request, reply)
    &&& after == dispatched(before, scope, request@, reply)
}

/// A run over `requests` with `replies`: every request is routed in order,
/// then the answers of every topic go to the wire in order.
pub open spec fn dispatch_run<P, D: Fn(&Value) -> Result<P, String>, I: DebugIntrospection>(
    introspection: Option<I>,
    scope: DispatchScope,
    transport: (TransportView, TransportView),
    topics: (Seq<DebugTopicView<P, D>>, Seq<DebugTopicView<P, D>>),
    requests: Seq<WireRequest>,
    replies: Seq<DispatchReply<P>>,
) -> bool {
    let views = requests.map_values(|request: WireRequest| request@);
    let start = (
        TransportView { inbox: Seq::empty(), ..transport.0 },
        topic_channels(topics.0),
    );
    let routed = dispatched_all(start, scope, views, replies, replies.len());
    &&& views == transport.0.inbox
    &&& replies.len() == requests.len()
    &&& forall|i: int|
        0 <= i < replies.len() ==> possible_reply(
            topics.0,
            scope,
            introspection,
            requests[i],
            #[trigger] replies[i],
        )
    &&& transport.1 == drained_all(routed.0, routed.1, scope.current, routed.1.len())
    &&& topic_channels(topics.1) == emptied(routed.1)
}

/// The dispatch system: nothing after a global failure, then built-in
/// introspection, then the topics.
pub struct DebugDispatchSystem<I> {
    pub introspection: Option<I>,
}

impl<I: DebugIntrospection> DebugDispatchSystem<I> {
    /// Routes one request.
    fn dispatch<P, D: Fn(&Value) -> Result<P, String>>(
        &self,
        transport: &mut DebugTransport,
        topics: &mut Vec<DebugTopicView<P, D>>,
        board: &GateBoard,
        request: WireRequest,
    )
        requires
            old(transport).gate().stands_on(*board),
            forall|i: int|
                0 <= i < old(topics).len() ==> (#[trigger] old(topics)[i]).channel.gates_on(*board),
            forall|i: int, params: &Value|
                0 <= i < old(topics).len() ==> #[trigger] old(topics)[i].decode.requires((params,)),
        ensures
            final(transport).gate() == old(transport).gate(),
            final(transport)@.generation == old(transport)@.generation,
            same_topics(final(topics)@, old(topics)@),
            exists|reply: DispatchReply<P>| #[trigger]
                dispatch_step(
                    self.introspection,
                    scope_of(old(topics)@, *old(transport), *board),
                    old(topics)@,
                    (old(transport)@, topic_channels(old(topics)@)),
                    (final(transport)@, topic_channels(final(topics)@)),
                    request,
                    reply,
                ),
    {
        let ghost scope = scope_of(topics@, *transport, *board);
        let ghost refused: Result<P, String> = Err(vstd::pervasive::arbitrary());
        let introspected: Option<Value> = if request.generation != transport.current_generation()
            || transport.runtime_gate().has_failed(board) {
            None
        } else {
            match &self.introspection {
                Some(introspection) => {
                    let name: &str = request.method.as_str();
                    let reply = introspection.introspect(name);
                    assert(call_ensures(I::introspect, (introspection, name), reply));
                    reply
                },
                None => None,
            }
        };
        let ghost mut reply = DispatchReply { introspected, decoded: refused };
        match route_request(transport, topics, board, &request, introspected.is_some()) {
            Route::Dropped => {},
            Route::Introspected => {
                if let Some(payload) = introspected {
                    transport.respond_ok(request.id, payload, request.generation);
                }
            },
            Route::RuntimeUnavailable => {
                transport.respond_error(
                    request.id,
                    -32000,
                    Some(DebugServerError::RuntimeUnavailable.code_name()),
                    "runtime unavailable",
                    request.generation,
                );
            },
            Route::MethodNotFound => {
                transport.respond_error(
                    request.id,
                    -32601,
                    None,
                    "method not found",
                    request.generation,
                );
            },
            Route::PluginUnavailable => {
                transport.respond_error(
                    request.id,
                    -32000,
                    Some(DebugServerError::PluginUnavailable.code_name()),
                    "plugin unavailable",
                    request.generation,
                );
            },
            Route::Decode(topic) => {
                let decoded = (topics[topic].decode)(&request.params);
                proof {
                    reply = DispatchReply { introspected: reply.introspected, decoded };
                }
                deliver(transport, topics, topic, request, decoded);
            },
        }
        assert(dispatch_step(
            self.introspection,
            scope,
            old(topics)@,
            (old(transport)@, topic_channels(old(topics)@)),
            (transport@, topic_channels(topics@)),
            request,
            reply,
        ));
    }

    /// Routes every waiting request and hands every waiting answer to the wire.
    pub fn run<P, D: Fn(&Value) -> Result<P, String>>(
        &self,
        transport: &mut DebugTransport,
        topics: &mut Vec<DebugTopicView<P, D>>,
        board: &GateBoard,
    )
        requires
            old(transport).gate().stands_on(*board),
            forall|i: int|
                0 <= i < old(topics).len() ==> (#[trigger] old(topics)[i]).channel.gates_on(*board),
            forall|i: int, params: &Value|
                0 <= i < old(topics).len() ==> #[trigger] old(topics)[i].decode.requires((params,)),
        ensures
            final(transport).gate() == old(transport).gate(),
            same_topics(final(topics)@, old(topics)@),
            exists|requests: Seq<WireRequest>, replies: Seq<DispatchReply<P>>| #[trigger]
                dispatch_run(
                    self.introspection,
                    scope_of(old(topics)@, *old(transport), *board),
                    (old(transport)@, final(transport)@),
                    (old(topics)@, final(topics)@),
                    requests,
                    replies,
                ),
    {
        let ghost scope = scope_of(topics@, *transport, *board);
        let ghost start = (
            TransportView { inbox: Seq::empty(), ..transport@ },
            topic_channels(topics@),
        );
        let current: u64 = transport.current_generation();
        let requests: Vec<WireRequest> = transport.take_requests();
        let ghost all = requests@;
        let ghost views = all.map_values(|request: WireRequest| request@);
        let ghost mut replies: Seq<DispatchReply<P>> = Seq::empty();
        for request in iter: requests
            invariant
                iter.seq() == all,
                views == all.map_values(|request: WireRequest| request@),
                replies.len() == iter.index(),
                transport.gate() == old(transport).gate(),
                transport@.generation == old(transport)@.generation,
                transport.gate().stands_on(*board),
                same_topics(topics@, old(topics)@),
                scope == scope_of(old(topics)@, *old(transport), *board),
                forall|i: int|
                    0 <= i < old(topics).len() ==> (#[trigger] old(topics)[i]).channel.gates_on(
                        *board,
                    ),
                forall|i: int, params: &Value|
                    0 <= i < old(topics).len() ==> #[trigger] old(topics)[i].decode.requires(
                        (params,),
                    ),
                (transport@, topic_channels(topics@)) == dispatched_all(
                    start,
                    scope,
                    views,
                    replies,
                    replies.len(),
                ),
                forall|i: int|
                    0 <= i < replies.len() ==> possible_reply(
                        old(topics)@,
                        scope,
                        self.introspection,
                        all[i],
                        #[trigger] replies[i],
                    ),
        {
            let ghost before = (transport@, topic_channels(topics@));
            let ghost topics_before = topics@;
            proof {
                lemma_same_scope(topics@, old(topics)@, *transport, *old(transport), *board);
                assert(views[iter.index() as int] == request@);
            }
            self.dispatch(transport, topics, board, request);
            proof {
                let reply = choose|reply: DispatchReply<P>| #[trigger]
                    dispatch_step(
                        self.introspection,
                        scope,
                        topics_before,
                        before,
                        (transport@, topic_channels(topics@)),
                        request,
                        reply,
                    );
                named_in_range(scope.names, request.method@);
                assert(scope.names.len() == old(topics).len());
                assert(possible_reply(old(topics)@, scope, self.introspection, request, reply));
                let earlier = replies;
                replies = earlier.push(reply);
                lemma_prefix_replies(start, scope, views, earlier, replies, earlier.len());
            }
        }
        let ghost routed = (transport@, topic_channels(topics@));
        let mut index: usize = 0;
        assert(topic_channels(topics@).take(0) =~= emptied(routed.1).take(0));
        while index < topics.len()
            invariant
                index <= topics.len(),
                transport.gate() == old(transport).gate(),
                same_topics(topics@, old(topics)@),
                current == scope.current,
                routed.1.len() == topics.len(),
                transport@ == drained_all(routed.0, routed.1, scope.current, index as nat),
                forall|i: int|
                    0 <= i < topics.len() ==> #[trigger] topics@[i].channel@ == if i < index {
                        emptied(routed.1)[i]
                    } else {
                        routed.1[i]
                    },
            decreases topics.len() - index,
        {
            drain_channel(transport, &mut topics[index].channel, current);
            index = index + 1;
        }
        proof {
            assert(topic_channels(topics@) =~= emptied(routed.1));
            assert(dispatch_run(
                self.introspection,
                scope,
                (old(transport)@, transport@),
                (old(topics)@, topics@),
                all,
                replies,
            ));
        }
    }
}

/// The scope of a run only depends on what a run does not change.
proof fn lemma_same_scope<P, D>(
    topics: Seq<DebugTopicView<P, D>>,
    other: Seq<DebugTopicView<P, D>>,
    transport: DebugTransport,
    earlier: DebugTransport,
    board: GateBoard,
)
    requires
        same_topics(topics, other),
        transport.gate() == earlier.gate(),
        transport@.generation == earlier@.generation,
    ensures
        scope_of(topics, transport, board) == scope_of(other, earlier, board),
{
    let scope = scope_of(topics, transport, board);
    let expected = scope_of(other, earlier, board);
    assert(scope.names =~= expected.names);
    assert(scope.open =~= expected.open);
}

proof fn lemma_prefix_replies<P>(
    state: DispatchView<P>,
    scope: DispatchScope,
    requests: Seq<RequestView>,
    replies: Seq<DispatchReply<P>>,
    more: Seq<DispatchReply<P>>,
    count: nat,
)
    requires
        count <= replies.len() <= more.len(),
        forall|i: int| 0 <= i < count ==> replies[i] == #[trigger] more[i],
    ensures
        dispatched_all(state, scope, requests, replies, count) == dispatched_all(
            state,
            scope,
            requests,
            more,
            count,
        ),
    decreases count,
{
    if count > 0 {
        lemma_prefix_replies(state, scope, requests, replies, more, (count - 1) as nat);
    }
}

// ---------------------------------------------------------------------------
// Laws
// ---------------------------------------------------------------------------

/// `body` is the reply to `id` that reports `error`: its number, its message,
/// and for a server error its name.
pub open spec fn reports_error(
    body: JsonTree,
    id: JsonTree,
    code: DebugWireErrorCode,
    message: Seq<char>,
) -> bool {
    match code {
        DebugWireErrorCode::MethodNotFound => crate::wire_laws::is_error_reply(
            body,
            id,
            -32601,
            None,
            message,
        ),
        DebugWireErrorCode::InvalidParams => crate::wire_laws::is_error_reply(
            body,
            id,
            -32602,
            None,
            message,
        ),
        DebugWireErrorCode::ServerError(error) => crate::wire_laws::is_error_reply(
            body,
            id,
            -32000,
            Some(
                match error {
                    DebugServerError::RuntimeUnavailable => "runtime_unavailable"@,
                    DebugServerError::QueueFull => "queue_full"@,
                    DebugServerError::PayloadTooLarge => "payload_too_large"@,
                    DebugServerError::PluginUnavailable => "plugin_unavailable"@,
                    DebugServerError::HandlerError => "handler_error"@,
                    DebugServerError::InternalError => "internal_error"@,
                },
            ),
            message,
        ),
    }
}

/// `body` is the reply that gives `answer`: its value as the result and no
/// error, or its error and no result.
pub open spec fn gives_answer(body: JsonTree, answer: AnswerView) -> bool {
    match answer.result {
        Ok(value) => crate::wire_laws::is_result_reply(body, answer.id, value),
        Err(error) => reports_error(body, answer.id, error.code, error.message),
    }
}

proof fn lemma_answer_body(answer: AnswerView)
    ensures
        gives_answer(answer_body(answer), answer),
{
    match answer.result {
        Ok(value) => {
            crate::wire_laws::lemma_ok_body(answer.id, value);
        },
        Err(error) => {
            crate::wire_laws::lemma_error_body(
                answer.id,
                wire_code(error.code),
                match error.code {
                    DebugWireErrorCode::ServerError(server) => Some(server.name()),
                    _ => None,
                },
                error.message,
            );
        },
    }
}

/// The answers of the connection `current`.
pub open spec fn answers_for(answers: Seq<AnswerView>, current: u64) -> Seq<AnswerView> {
    answers.filter(|answer: AnswerView| answer.generation == current)
}

/// The answers `given` went to the wire, in order, as far as there was room.
pub open spec fn answers_wait(
    before: TransportView,
    after: TransportView,
    given: Seq<AnswerView>,
    current: u64,
) -> bool {
    &&& crate::wire_laws::only_outbox_changed(before, after)
    &&& after.outbox.len() == if before.outbox.len() + given.len() <= 256 {
        before.outbox.len() + given.len()
    } else if before.outbox.len() >= 256 {
        before.outbox.len()
    } else {
        256
    }
    &&& forall|i: int|
        0 <= i < before.outbox.len() ==> #[trigger] after.outbox[i] == before.outbox[i]
    &&& forall|k: int|
        before.outbox.len() <= k < after.outbox.len() ==> {
            let written = #[trigger] after.outbox[k];
            &&& gives_answer(written.body, given[k - before.outbox.len()])
            &&& written.generation == current
            &&& written.answers
        }
}

/// Draining hands the answers of the current connection to the wire, each once
/// and in order, with its id and its outcome: a value as a value and an error
/// as that error. Answers of other connections go nowhere.
pub proof fn answers_keep_order_and_outcome(
    transport: TransportView,
    answers: Seq<AnswerView>,
    current: u64,
)
    ensures
        answers_wait(
            transport,
            drained(transport, answers, current),
            answers_for(answers, current),
            current,
        ),
    decreases answers.len(),
{
    reveal(Seq::filter);
    if answers.len() > 0 {
        answers_keep_order_and_outcome(transport, answers.drop_last(), current);
        lemma_answer_body(answers.last());
    }
}

/// The numbers of the errors.
pub proof fn wire_numbers_are_those_of_json_rpc(code: DebugWireErrorCode, r: i64)
    requires
        call_ensures(map_wire_code, (code,), r),
    ensures
        code is MethodNotFound <==> r == -32601,
        code is InvalidParams <==> r == -32602,
        code is ServerError <==> r == -32000,
{
}

/// A request was answered with an error, and that is all that happened.
pub open spec fn answered_with<P>(
    before: DispatchView<P>,
    after: DispatchView<P>,
    request: RequestView,
    code: DebugWireErrorCode,
    message: Seq<char>,
) -> bool {
    &&& after.1 == before.1
    &&& crate::wire_laws::only_outbox_changed(before.0, after.0)
    &&& crate::wire_laws::one_more_waits(
        before.0,
        after.0,
        |body: JsonTree| reports_error(body, request.id, code, message),
        request.generation,
        true,
    )
}

proof fn lemma_rejected<P>(
    before: DispatchView<P>,
    request: RequestView,
    code: DebugWireErrorCode,
    message: Seq<char>,
)
    ensures
        answered_with(
            before,
            (
                crate::debug_transport::rejected(
                    before.0,
                    request.id,
                    wire_code(code),
                    match code {
                        DebugWireErrorCode::ServerError(server) => Some(server.name()),
                        _ => None,
                    },
                    message,
                    request.generation,
                ),
                before.1,
            ),
            request,
            code,
            message,
        ),
{
    lemma_answer_body(
        AnswerView {
            id: request.id,
            result: Err(crate::debug_topic::WireErrorView { code, message }),
            generation: request.generation,
        },
    );
}

/// What comes of params that were decoded for topic `i`. Undecodable ones are
/// answered so. Others wait in the topic, with their id and connection, behind
/// those before them, unless 16 requests of the topic are unanswered; that is
/// answered `queue_full`.
pub open spec fn params_delivered<P>(
    before: DispatchView<P>,
    after: DispatchView<P>,
    i: int,
    request: RequestView,
    decoded: Result<P, String>,
) -> bool {
    match decoded {
        Err(message) => answered_with(
            before,
            after,
            request,
            DebugWireErrorCode::InvalidParams,
            "invalid params: "@ + message@,
        ),
        Ok(payload) => if before.1[i].pending >= 16 {
            answered_with(
                before,
                after,
                request,
                DebugWireErrorCode::ServerError(DebugServerError::QueueFull),
                "topic pending capacity reached"@,
            )
        } else {
            &&& after.0 == before.0
            &&& after.1.len() == before.1.len()
            &&& forall|k: int|
                0 <= k < before.1.len() && k != i ==> #[trigger] after.1[k] == before.1[k]
            &&& after.1[i].inbox == before.1[i].inbox.push(
                QueuedView { id: request.id, payload, generation: request.generation },
            )
            &&& after.1[i].pending == before.1[i].pending + 1
            &&& after.1[i].outbox == before.1[i].outbox
        },
    }
}

proof fn lemma_delivered<P>(
    before: DispatchView<P>,
    i: int,
    request: RequestView,
    decoded: Result<P, String>,
)
    requires
        0 <= i < before.1.len(),
    ensures
        ({
            let (transport, channel) = delivered_to(before.0, before.1[i], request, decoded);
            params_delivered(before, (transport, before.1.update(i, channel)), i, request, decoded)
        }),
{
    assert(before.1.update(i, before.1[i]) =~= before.1);
    if let Err(message) = decoded {
        lemma_rejected(
            before,
            request,
            DebugWireErrorCode::InvalidParams,
            "invalid params: "@ + message@,
        );
    }
    lemma_rejected(
        before,
        request,
        DebugWireErrorCode::ServerError(DebugServerError::QueueFull),
        "topic pending capacity reached"@,
    );
}

/// `after` are the topics `before`: what they are called, whose they are, how
/// they decode and what gates them.
pub open spec fn topics_are_the_same<P, D>(
    after: Seq<DebugTopicView<P, D>>,
    before: Seq<DebugTopicView<P, D>>,
) -> bool {
    &&& after.len() == before.len()
    &&& forall|i: int|
        0 <= i < before.len() ==> {
            &&& (#[trigger] after[i]).name == before[i].name
            &&& after[i].owner == before[i].owner
            &&& after[i].decode == before[i].decode
            &&& after[i].channel.owner_gate == before[i].channel.owner_gate
            &&& after[i].channel.runtime_gate == before[i].channel.runtime_gate
        }
}

/// Decoded params are delivered to the topic that they were decoded for.
pub proof fn decoded_params_reach_their_topic<P, D>(
    transport: &mut DebugTransport,
    topics: &mut Vec<DebugTopicView<P, D>>,
    topic: usize,
    request: WireRequest,
    decoded: Result<P, String>,
)
    requires
        call_ensures(deliver::<P, D>, (transport, topics, topic, request, decoded), ()),
        topic < old(topics).len(),
    ensures
        params_delivered(
            (old(transport)@, topic_channels(old(topics)@)),
            (final(transport)@, topic_channels(final(topics)@)),
            topic as int,
            request@,
            decoded,
        ),
        topics_are_the_same(final(topics)@, old(topics)@),
        final(transport).gate() == old(transport).gate(),
{
    lemma_delivered(
        (old(transport)@, topic_channels(old(topics)@)),
        topic as int,
        request@,
        decoded,
    );
}

/// `topic` is the first of `topics` that bears the name of the method.
pub open spec fn is_first_named<P, D>(
    topics: Seq<DebugTopicView<P, D>>,
    method: Seq<char>,
    topic: int,
) -> bool {
    &&& 0 <= topic < topics.len()
    &&& topics[topic].name@ == method
    &&& forall|i: int| 0 <= i < topic ==> (#[trigger] topics[i]).name@ != method
}

proof fn lemma_named<P, D>(topics: Seq<DebugTopicView<P, D>>, method: Seq<char>)
    ensures
        forall|i: int|
            #[trigger] is_first_named(topics, method, i) <==> named(topic_names(topics), method)
                == Some(i),
        named(topic_names(topics), method) is None <==> forall|i: int|
            0 <= i < topics.len() ==> (#[trigger] topics[i]).name@ != method,
{
    let names = topic_names(topics);
    named_in_range(names, method);
    assert forall|i: int| 0 <= i < topics.len() implies (#[trigger] topics[i]).name@ == names[i] by {}
    assert forall|i: int| 0 <= i < names.len() implies #[trigger] names[i] == topics[i].name@ by {}
    assert forall|i: int| #[trigger] is_first_named(topics, method, i) implies named(names, method)
        == Some(i) by {
        assert(names[i] == method);
        let found = named(names, method)->Some_0;
        assert(topics[found].name@ == method);
    }
    assert forall|i: int| named(names, method) == Some(i) implies #[trigger] is_first_named(
        topics,
        method,
        i,
    ) by {
        assert(names[i] == method);
    }
}

/// Where a request goes: nowhere where its connection is gone; to no topic
/// after a global failure, where introspection answers it, or while the
/// runtime gate is not open; else to the first topic that bears its name,
/// if both gates of that topic are open.
pub proof fn request_goes_to_the_topic_it_names<P, D>(
    transport: &DebugTransport,
    topics: &Vec<DebugTopicView<P, D>>,
    board: &GateBoard,
    request: &WireRequest,
    introspected: bool,
    r: Route,
)
    requires
        call_ensures(
            route_request::<P, D>,
            (transport, topics, board, request, introspected),
            r,
        ),
        topics.len() <= usize::MAX,
    ensures
        ({
            let gate = transport.gate().state(*board);
            let current = request.generation == transport@.generation;
            let asks = current && gate is Open && !introspected;
            &&& r is Dropped <==> !current
            &&& r is Introspected <==> current && !(gate is FailedClosed) && introspected
            &&& r is RuntimeUnavailable <==> current && (gate is FailedClosed || (!introspected
                && !(gate is Open)))
            &&& r is MethodNotFound <==> asks && forall|i: int|
                0 <= i < topics.len() ==> (#[trigger] topics@[i]).name@ != request.method@
            &&& forall|i: int| #[trigger]
                is_first_named(topics@, request.method@, i) && asks ==> {
                    let channel = topics@[i].channel;
                    if channel.owner_gate.state(*board) is Open && channel.runtime_gate.state(
                        *board,
                    ) is Open {
                        r == Route::Decode(i as usize)
                    } else {
                        r == Route::PluginUnavailable
                    }
                }
            &&& r is PluginUnavailable || r is Decode ==> asks
        }),
{
    lemma_named(topics@, request.method@);
    let scope = scope_of(topics@, *transport, *board);
    named_in_range(scope.names, request.method@);
    assert forall|i: int| #[trigger] is_first_named(topics@, request.method@, i) implies
        scope.open[i] == topics@[i].channel.is_dispatchable(*board) by {}
}

/// What comes of one request, given what introspection answers it and what its
/// params decode to.
pub open spec fn request_served<P, D>(
    before: DispatchView<P>,
    after: DispatchView<P>,
    topics: Seq<DebugTopicView<P, D>>,
    gate: crate::gate::GateState,
    board: GateBoard,
    current: u64,
    request: RequestView,
    reply: DispatchReply<P>,
) -> bool {
    let unavailable = answered_with(
        before,
        after,
        request,
        DebugWireErrorCode::ServerError(DebugServerError::RuntimeUnavailable),
        "runtime unavailable"@,
    );
    if request.generation != current {
        after == before
    } else if gate is FailedClosed {
        unavailable
    } else if let Some(payload) = reply.introspected {
        &&& after.1 == before.1
        &&& crate::wire_laws::only_outbox_changed(before.0, after.0)
        &&& crate::wire_laws::one_more_waits(
            before.0,
            after.0,
            |body: JsonTree|
                crate::wire_laws::is_result_reply(
                    body,
                    request.id,
                    crate::json::json_tree(payload),
                ),
            request.generation,
            true,
        )
    } else if !(gate is Open) {
        unavailable
    } else {
        &&& (forall|i: int|
            0 <= i < topics.len() ==> (#[trigger] topics[i]).name@ != request.method)
            ==> answered_with(
            before,
            after,
            request,
            DebugWireErrorCode::MethodNotFound,
            "method not found"@,
        )
        &&& forall|i: int| #[trigger]
            is_first_named(topics, request.method, i) ==> if topics[i].channel.owner_gate.state(
                board,
            ) is Open && topics[i].channel.runtime_gate.state(board) is Open {
                params_delivered(before, after, i, request, reply.decoded)
            } else {
                answered_with(
                    before,
                    after,
                    request,
                    DebugWireErrorCode::ServerError(DebugServerError::PluginUnavailable),
                    "plugin unavailable"@,
                )
            }
    }
}

proof fn lemma_served<P, D>(
    before: DispatchView<P>,
    topics: Seq<DebugTopicView<P, D>>,
    transport: DebugTransport,
    board: GateBoard,
    request: RequestView,
    reply: DispatchReply<P>,
)
    requires
        topics.len() <= usize::MAX,
        before.1.len() == topics.len(),
    ensures
        request_served(
            before,
            dispatched(before, scope_of(topics, transport, board), request, reply),
            topics,
            transport.gate().state(board),
            board,
            transport@.generation,
            request,
            reply,
        ),
{
    let scope = scope_of(topics, transport, board);
    lemma_named(topics, request.method);
    named_in_range(scope.names, request.method);
    lemma_rejected(
        before,
        request,
        DebugWireErrorCode::ServerError(DebugServerError::RuntimeUnavailable),
        "runtime unavailable"@,
    );
    lemma_rejected(
        before,
        request,
        DebugWireErrorCode::ServerError(DebugServerError::PluginUnavailable),
        "plugin unavailable"@,
    );
    lemma_rejected(before, request, DebugWireErrorCode::MethodNotFound, "method not found"@);
    if let Some(payload) = reply.introspected {
        crate::wire_laws::lemma_ok_body(request.id, crate::json::json_tree(payload));
    }
    if let Some(i) = named(scope.names, request.method) {
        lemma_delivered(before, i, request, reply.decoded);
        assert(scope.open[i] == topics[i].channel.is_dispatchable(board));
    }
}

/// What happened in one run: the requests, what the outside answered about each,
/// the states between them, and the wire between the topics that were drained.
pub struct DispatchTrace<P> {
    pub requests: Seq<WireRequest>,
    pub replies: Seq<DispatchReply<P>>,
    pub states: Seq<DispatchView<P>>,
    pub drains: Seq<TransportView>,
}

/// `trace` is a run from `transport` and `topics` to `transport_after` and
/// `topics_after`.
pub open spec fn is_run<P, D: Fn(&Value) -> Result<P, String>, I: DebugIntrospection>(
    trace: DispatchTrace<P>,
    introspection: Option<I>,
    board: GateBoard,
    transport: DebugTransport,
    topics: Seq<DebugTopicView<P, D>>,
    transport_after: TransportView,
    topics_after: Seq<DebugTopicView<P, D>>,
) -> bool {
    let count = transport@.inbox.len();
    let gate = transport.gate().state(board);
    let current = transport@.generation;
    let end = trace.states[count as int];
    &&& trace.requests.len() == count && trace.replies.len() == count
    &&& trace.states.len() == count + 1
    &&& trace.states[0].0 == (TransportView { inbox: Seq::empty(), ..transport@ })
    &&& trace.states[0].1 == topic_channels(topics)
    &&& forall|i: int|
        0 <= i < count ==> (#[trigger] trace.requests[i])@ == transport@.inbox[i]
    &&& forall|i: int|
        0 <= i < count ==> request_served(
            trace.states[i],
            trace.states[i + 1],
            topics,
            gate,
            board,
            current,
            transport@.inbox[i],
            #[trigger] trace.replies[i],
        )
    &&& forall|i: int|
        0 <= i < count && introspection is None ==> (#[trigger] trace.replies[i]).introspected
            is None
    &&& forall|i: int|
        0 <= i < count && introspection is Some && trace.requests[i].generation == current && !(
        gate is FailedClosed) ==> introspects(
            &introspection->Some_0,
            trace.requests[i].method@,
            (#[trigger] trace.replies[i]).introspected,
        )
    &&& forall|i: int, t: int|
        0 <= i < count && trace.requests[i].generation == current && gate is Open
            && trace.replies[i].introspected is None && #[trigger] is_first_named(
            topics,
            trace.requests[i].method@,
            t,
        ) && topics[t].channel.owner_gate.state(board) is Open
            && topics[t].channel.runtime_gate.state(board) is Open ==> topics[t].decode.ensures(
            (&trace.requests[i].params,),
            trace.replies[i].decoded,
        )
    &&& trace.drains.len() == topics.len() + 1
    &&& trace.drains[0] == end.0
    &&& forall|t: int|
        0 <= t < topics.len() ==> answers_wait(
            #[trigger] trace.drains[t],
            trace.drains[t + 1],
            answers_for(end.1[t].outbox, current),
            current,
        )
    &&& transport_after == trace.drains.last()
    &&& topics_after.len() == topics.len()
    &&& forall|t: int|
        0 <= t < topics.len() ==> {
            let channel = (#[trigger] topics_after[t]).channel@;
            &&& channel.outbox.len() == 0
            &&& channel.inbox == end.1[t].inbox
            &&& channel.pending == end.1[t].pending
        }
}

/// A run serves every request that waits, in order: by nothing where its
/// connection is gone, by introspection, by the topic that it names, or by the
/// error that says why not. Then the answers of every topic go to the wire, in
/// order, and no topic keeps any.
pub proof fn run_serves_all_and_drains_all<
    P,
    D: Fn(&Value) -> Result<P, String>,
    I: DebugIntrospection,
>(
    system: &DebugDispatchSystem<I>,
    transport: &mut DebugTransport,
    topics: &mut Vec<DebugTopicView<P, D>>,
    board: &GateBoard,
)
    requires
        call_ensures(
            DebugDispatchSystem::<I>::run::<P, D>,
            (system, transport, topics, board),
            (),
        ),
        old(topics).len() <= usize::MAX,
    ensures
        exists|trace: DispatchTrace<P>| #[trigger]
            is_run(
                trace,
                system.introspection,
                *board,
                *old(transport),
                old(topics)@,
                final(transport)@,
                final(topics)@,
            ),
        topics_are_the_same(final(topics)@, old(topics)@),
        final(transport).gate() == old(transport).gate(),
{
    let scope = scope_of(old(topics)@, *old(transport), *board);
    let (requests, replies) = choose|
        requests: Seq<WireRequest>,
        replies: Seq<DispatchReply<P>>,
    | #[trigger]
        dispatch_run(
            system.introspection,
            scope,
            (old(transport)@, final(transport)@),
            (old(topics)@, final(topics)@),
            requests,
            replies,
        );
    lemma_run_is_traced(
        system.introspection,
        *board,
        *old(transport),
        old(topics)@,
        final(transport)@,
        final(topics)@,
        requests,
        replies,
    );
}

proof fn lemma_run_is_traced<P, D: Fn(&Value) -> Result<P, String>, I: DebugIntrospection>(
    introspection: Option<I>,
    board: GateBoard,
    transport: DebugTransport,
    topics: Seq<DebugTopicView<P, D>>,
    transport_after: TransportView,
    topics_after: Seq<DebugTopicView<P, D>>,
    requests: Seq<WireRequest>,
    replies: Seq<DispatchReply<P>>,
)
    requires
        topics.len() <= usize::MAX,
        dispatch_run(
            introspection,
            scope_of(topics, transport, board),
            (transport@, transport_after),
            (topics, topics_after),
            requests,
            replies,
        ),
    ensures
        exists|trace: DispatchTrace<P>| #[trigger]
            is_run(
                trace,
                introspection,
                board,
                transport,
                topics,
                transport_after,
                topics_after,
            ),
{
    let scope = scope_of(topics, transport, board);
    let views = requests.map_values(|request: WireRequest| request@);
    let start = (
        TransportView { inbox: Seq::empty(), ..transport@ },
        topic_channels(topics),
    );
    let states = Seq::new(
        (replies.len() + 1) as nat,
        |i: int| dispatched_all(start, scope, views, replies, i as nat),
    );
    let end = states[replies.len() as int];
    let drains = Seq::new(
        (end.1.len() + 1) as nat,
        |t: int| drained_all(end.0, end.1, scope.current, t as nat),
    );
    let trace = DispatchTrace { requests, replies, states, drains };
    assert forall|i: int| 0 <= i < replies.len() implies (#[trigger] requests[i])@
        == transport@.inbox[i] by {
        assert(views[i] == requests[i]@);
    }
    assert forall|i: int| 0 <= i <= replies.len() implies (#[trigger] states[i]).1.len()
        == topics.len() by {
        lemma_same_count(start, scope, views, replies, i as nat);
    }
    assert forall|i: int| 0 <= i < replies.len() implies request_served(
        states[i],
        states[i + 1],
        topics,
        transport.gate().state(board),
        board,
        scope.current,
        transport@.inbox[i],
        #[trigger] replies[i],
    ) by {
        lemma_served(states[i], topics, transport, board, views[i], replies[i]);
        assert(states[i + 1] == dispatched(states[i], scope, views[i], replies[i]));
    }
    assert forall|i: int, t: int|
        0 <= i < replies.len() && requests[i].generation == scope.current
            && transport.gate().state(board) is Open && replies[i].introspected is None
            && #[trigger] is_first_named(topics, requests[i].method@, t)
            && topics[t].channel.owner_gate.state(board) is Open
            && topics[t].channel.runtime_gate.state(board) is Open implies topics[t].decode.ensures(
        (&requests[i].params,),
        replies[i].decoded,
    ) by {
        lemma_named(topics, requests[i].method@);
        assert(scope.open[t] == topics[t].channel.is_dispatchable(board));
        assert(possible_reply(topics, scope, introspection, requests[i], replies[i]));
        assert(route(scope, requests[i]@, false) == Route::Decode(t as usize));
    }
    assert forall|t: int| 0 <= t < topics.len() implies answers_wait(
        #[trigger] drains[t],
        drains[t + 1],
        answers_for(end.1[t].outbox, scope.current),
        scope.current,
    ) by {
        answers_keep_order_and_outcome(drains[t], end.1[t].outbox, scope.current);
    }
    assert(topic_channels(topics_after).len() == topics_after.len());
    assert(emptied(end.1).len() == end.1.len());
    assert forall|t: int| 0 <= t < topics.len() implies (#[trigger] topics_after[t]).channel@
        == emptied(end.1)[t] by {
        assert(topic_channels(topics_after)[t] == topics_after[t].channel@);
    }
    assert(is_run(
        trace,
        introspection,
        board,
        transport,
        topics,
        transport_after,
        topics_after,
    ));
}

/// Requests add no topics.
proof fn lemma_same_count<P>(
    state: DispatchView<P>,
    scope: DispatchScope,
    requests: Seq<RequestView>,
    replies: Seq<DispatchReply<P>>,
    count: nat,
)
    requires
        scope.names.len() == state.1.len() <= usize::MAX,
    ensures
        dispatched_all(state, scope, requests, replies, count).1.len() == state.1.len(),
    decreases count,
{
    if count > 0 {
        named_in_range(scope.names, requests[count - 1].method);
        lemma_same_count(state, scope, requests, replies, (count - 1) as nat);
    }
}

} // verus!
