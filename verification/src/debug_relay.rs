//! Callback-domain debug topics: the relay between a topic channel and the
//! hook callback that answers it.

use std::collections::VecDeque;
use std::sync::Arc;

use serde_json::Value;
use vstd::prelude::*;

use crate::callback::CallbackCtx;
use crate::container::{SharedSlot, SlotAccess};
use crate::debug_topic::{
    handler_result, AnswerView, ChannelView, DebugHandlerError, DebugResponse, DebugTopicChannel,
    HandlerOutcome,
};
use crate::json::JsonTree;
use crate::raw::take_out;

verus! {

/// How the attempts of one callback entry to lock the slots end.
#[derive(Debug, Clone, Copy)]
pub struct EndpointAccess {
    /// Taking the request.
    pub take: SlotAccess,
    /// Putting a request back that cannot be taken out of its `Arc`.
    pub put_back: SlotAccess,
    /// Leaving the response.
    pub answer: SlotAccess,
}

/// The slots of one callback-domain topic: requests on their way into the
/// callback, and responses on their way out.
#[verifier::reject_recursive_types(Req)]
#[verifier::reject_recursive_types(Res)]
pub struct CallbackDebugEndpoints<Req, Res> {
    pub request: SharedSlot<Req>,
    pub response: SharedSlot<Result<Res, DebugHandlerError>>,
}

/// What a slot holds after `value` was sent to it.
pub open spec fn slot_after<T>(held: Option<Arc<T>>, access: SlotAccess, value: Arc<T>) -> Option<
    Arc<T>,
> {
    if access is Free {
        Some(value)
    } else {
        held
    }
}

impl<Req, Res> CallbackDebugEndpoints<Req, Res> {
    pub fn new() -> (r: Self)
        ensures
            r.request@ is None,
            r.response@ is None,
    {
        CallbackDebugEndpoints { request: SharedSlot::new(), response: SharedSlot::new() }
    }

    /// Callback side: handles at most one pending request per hook entry.
    /// Returns `true` when a request was handled. Never blocks.
    ///
    /// Whether a request can be taken out of its `Arc` depends on who else
    /// holds it. One that cannot goes back for the next entry.
    pub fn handle_pending<H: FnOnce(Req) -> Result<Res, DebugHandlerError>>(
        &mut self,
        ctx: &CallbackCtx,
        access: EndpointAccess,
        handler: H,
    ) -> (r: bool)
        requires
            access.take !is Contended && old(self).request@ is Some ==> handler.requires(
                (*old(self).request@->Some_0,),
            ),
        ensures
            if access.take is Contended || old(self).request@ is None {
                &&& !r
                &&& final(self).request@ == old(self).request@
                &&& final(self).response@ == old(self).response@
            } else {
                let request = old(self).request@->Some_0;
                &&& exists|taken: Result<Req, Arc<Req>>| #[trigger]
                    crate::raw::unwraps(request, taken) && r == (taken is Ok)
                &&& if r {
                    &&& final(self).request@ is None
                    &&& exists|outcome: Result<Res, DebugHandlerError>|
                        {
                            &&& #[trigger] handler.ensures((*request,), outcome)
                            &&& final(self).response@ == slot_after(
                                old(self).response@,
                                access.answer,
                                Arc::new(outcome),
                            )
                        }
                } else {
                    &&& final(self).request@ == slot_after(None, access.put_back, request)
                    &&& final(self).response@ == old(self).response@
                }
            },
    {
        let _ = ctx;
        match self.request.take(access.take) {
            None => false,
            Some(arc) => {
                let taken = take_out(arc);
                assert(crate::raw::unwraps(arc, taken));
                self.handle_taken(taken, access, handler)
            },
        }
    }

    /// Handles a request that was taken out of its slot, given whether it could
    /// be taken out of its `Arc`.
    pub fn handle_taken<H: FnOnce(Req) -> Result<Res, DebugHandlerError>>(
        &mut self,
        taken: Result<Req, Arc<Req>>,
        access: EndpointAccess,
        handler: H,
    ) -> (r: bool)
        requires
            taken is Ok ==> handler.requires((taken->Ok_0,)),
        ensures
            r == (taken is Ok),
            match taken {
                Ok(request) => {
                    &&& final(self).request@ == old(self).request@
                    &&& exists|outcome: Result<Res, DebugHandlerError>|
                        {
                            &&& #[trigger] handler.ensures((request,), outcome)
                            &&& final(self).response@ == slot_after(
                                old(self).response@,
                                access.answer,
                                Arc::new(outcome),
                            )
                        }
                },
                Err(arc) => {
                    &&& final(self).request@ == slot_after(
                        old(self).request@,
                        access.put_back,
                        arc,
                    )
                    &&& final(self).response@ == old(self).response@
                },
            },
    {
        match taken {
            Ok(request) => {
                let outcome = handler(request);
                let _ = self.response.try_send(access.answer, Arc::new(outcome));
                true
            },
            Err(arc) => {
                let _ = self.request.try_send(access.put_back, arc);
                false
            },
        }
    }
}

/// How the attempts of one relay run to lock the slots end.
#[derive(Debug, Clone, Copy)]
pub struct RelayAccess {
    /// Looking whether the request slot is free.
    pub probe: SlotAccess,
    /// Putting a request into it.
    pub deliver: SlotAccess,
    /// Taking a response.
    pub collect: SlotAccess,
    /// Putting a response back that cannot be taken out of its `Arc`.
    pub put_back: SlotAccess,
}

/// Owner-side relay system of one callback-domain topic: channel inbox to
/// request slot (one per frame, no overwrite), and response slot to channel
/// outbox with first in, first out id pairing.
pub struct CallbackRelaySystem {
    /// Delivered but unanswered requests, oldest first: id and connection
    /// generation.
    in_flight: VecDeque<(Value, u64)>,
}

impl View for CallbackRelaySystem {
    type V = Seq<(JsonTree, u64)>;

    closed spec fn view(&self) -> Seq<(JsonTree, u64)> {
        self.in_flight@.map_values(
            |entry: (Value, u64)| (crate::json::json_tree(entry.0), entry.1),
        )
    }
}

/// Channel, delivered ids and request slot after the oldest request of
/// `channel` was to be delivered, given the request that its payload is;
/// `None` where it is none of this topic.
pub open spec fn delivered<P, Req>(
    channel: ChannelView<P>,
    in_flight: Seq<(JsonTree, u64)>,
    slot: Option<Arc<Req>>,
    access: SlotAccess,
    typed: Option<Arc<Req>>,
) -> (ChannelView<P>, Seq<(JsonTree, u64)>, Option<Arc<Req>>) {
    let front = channel.inbox[0];
    match typed {
        Some(request) => if access is Free {
            (
                ChannelView { inbox: channel.inbox.skip(1), ..channel },
                in_flight.push((front.id, front.generation)),
                Some(request),
            )
        } else {
            (channel, in_flight, slot)
        },
        None => (
            ChannelView {
                inbox: channel.inbox.skip(1),
                outbox: channel.outbox.push(
                    AnswerView {
                        id: front.id,
                        result: crate::debug_topic::wire_result(HandlerOutcome::TypeMismatch),
                        generation: front.generation,
                    },
                ),
                pending: crate::debug_topic::one_less(channel.pending),
            },
            in_flight,
            slot,
        ),
    }
}

/// Channel and delivered ids after a response was taken: the oldest delivered
/// id is answered with it. `None` stands for a response that is lost, because it
/// could neither be taken out of its `Arc` nor be put back; no response can come
/// for its id any more, which is therefore no longer in flight.
pub open spec fn collected<P>(
    channel: ChannelView<P>,
    in_flight: Seq<(JsonTree, u64)>,
    outcome: Option<HandlerOutcome>,
) -> (ChannelView<P>, Seq<(JsonTree, u64)>) {
    let (id, generation) = in_flight[0];
    match outcome {
        Some(outcome) => (
            ChannelView {
                inbox: channel.inbox,
                outbox: channel.outbox.push(
                    AnswerView { id, result: crate::debug_topic::wire_result(outcome), generation },
                ),
                pending: crate::debug_topic::one_less(channel.pending),
            },
            in_flight.skip(1),
        ),
        None => (channel, in_flight.skip(1)),
    }
}

/// `outcome` is what `encode` makes of a response.
pub open spec fn encoded<Res, E: Fn(Res) -> Result<Value, String>>(
    encode: E,
    response: Result<Res, DebugHandlerError>,
    outcome: HandlerOutcome,
) -> bool {
    match response {
        Ok(value) => match outcome {
            HandlerOutcome::Encoded(json) => encode.ensures((value,), Ok(json)),
            HandlerOutcome::Unencodable(message) => encode.ensures((value,), Err(message)),
            _ => false,
        },
        Err(error) => outcome == HandlerOutcome::Failed(error),
    }
}

/// Every pending request is either queued or delivered.
pub open spec fn balanced<P>(channel: ChannelView<P>, in_flight: Seq<(JsonTree, u64)>) -> bool {
    channel.pending == channel.inbox.len() + in_flight.len()
}

impl CallbackRelaySystem {
    pub fn new() -> (r: Self)
        ensures
            r@ == Seq::<(JsonTree, u64)>::empty(),
    {
        let r = CallbackRelaySystem { in_flight: VecDeque::new() };
        assert(r@ =~= Seq::<(JsonTree, u64)>::empty());
        r
    }

    /// Delivers the oldest queued request, given what its payload is.
    pub fn deliver_front<P, Req>(
        &mut self,
        channel: &mut DebugTopicChannel<P>,
        slot: &mut SharedSlot<Req>,
        access: SlotAccess,
        typed: Option<Arc<Req>>,
    )
        requires
            old(channel)@.inbox.len() > 0,
        ensures
            final(channel).same_gates(*old(channel)),
            (final(channel)@, final(self)@, final(slot)@) == delivered(
                old(channel)@,
                old(self)@,
                old(slot)@,
                access,
                typed,
            ),
    {
        let ghost before = channel@;
        match typed {
            Some(request) => {
                if slot.try_send(access, request).is_ok() {
                    if let Some(queued) = channel.inbox.pop_front() {
                        assert(queued@ == before.inbox[0]);
                        self.in_flight.push_back((queued.id, queued.generation));
                    }
                    assert(channel@.inbox =~= before.inbox.skip(1));
                    assert(self@ =~= old(self)@.push(
                        (before.inbox[0].id, before.inbox[0].generation),
                    ));
                }
            },
            None => {
                if let Some(queued) = channel.inbox.pop_front() {
                    assert(queued@ == before.inbox[0]);
                    assert(channel@.inbox =~= before.inbox.skip(1));
                    channel.answer(
                        DebugResponse {
                            id: queued.id,
                            result: handler_result(HandlerOutcome::TypeMismatch),
                            generation: queued.generation,
                        },
                    );
                }
            },
        }
    }

    /// Answers the oldest delivered id with a response that was taken out of
    /// its slot, given whether it could be taken out of its `Arc`. One that could
    /// not goes back for the next run, and its id stays in flight. A response
    /// without a delivered request cannot be correlated and is dropped.
    pub fn collect_taken<P, Res, E: Fn(Res) -> Result<Value, String>>(
        &mut self,
        channel: &mut DebugTopicChannel<P>,
        slot: &mut SharedSlot<Result<Res, DebugHandlerError>>,
        access: SlotAccess,
        taken: Result<Result<Res, DebugHandlerError>, Arc<Result<Res, DebugHandlerError>>>,
        encode: &E,
    )
        requires
            taken matches Ok(response) ==> encodable(*encode, response),
        ensures
            final(channel).same_gates(*old(channel)),
            if old(self)@.len() == 0 {
                &&& final(channel)@ == old(channel)@
                &&& final(self)@ == old(self)@
                &&& final(slot)@ == old(slot)@
            } else {
                match taken {
                    Ok(response) => {
                        &&& final(slot)@ == old(slot)@
                        &&& exists|outcome: HandlerOutcome|
                            {
                                &&& #[trigger] encoded(*encode, response, outcome)
                                &&& (final(channel)@, final(self)@) == collected(
                                    old(channel)@,
                                    old(self)@,
                                    Some(outcome),
                                )
                            }
                    },
                    Err(arc) => {
                        &&& final(slot)@ == slot_after(old(slot)@, access, arc)
                        &&& (final(channel)@, final(self)@) == if access is Free {
                            (old(channel)@, old(self)@)
                        } else {
                            collected(old(channel)@, old(self)@, None)
                        }
                    },
                }
            },
    {
        if self.in_flight.len() == 0 {
            return ;
        }
        let ghost before = self@;
        match taken {
            Ok(response) => {
                let ghost answered = response;
                let outcome = match response {
                    Ok(value) => match encode(value) {
                        Ok(json) => HandlerOutcome::Encoded(json),
                        Err(message) => HandlerOutcome::Unencodable(message),
                    },
                    Err(error) => HandlerOutcome::Failed(error),
                };
                assert(encoded(*encode, answered, outcome));
                let result = handler_result(outcome);
                if let Some((id, generation)) = self.in_flight.pop_front() {
                    assert(before[0] == (crate::json::json_tree(id), generation));
                    channel.answer(DebugResponse { id, result, generation });
                }
                assert(self@ =~= before.skip(1));
            },
            Err(arc) => {
                if slot.try_send(access, arc).is_err() {
                    let _ = self.in_flight.pop_front();
                    assert(self@ =~= before.skip(1));
                }
            },
        }
    }

    /// One run of the relay: delivers at most one queued request when its slot
    /// is free, then collects the response that is there, if any.
    pub fn run<P, Req, Res, D: Fn(&P) -> Option<Arc<Req>>, E: Fn(Res) -> Result<Value, String>>(
        &mut self,
        channel: &mut DebugTopicChannel<P>,
        endpoints: &mut CallbackDebugEndpoints<Req, Res>,
        access: RelayAccess,
        downcast: &D,
        encode: &E,
    )
        requires
            old(channel)@.inbox.len() > 0 ==> downcast.requires(
                (&old(channel)@.inbox[0].payload,),
            ),
            old(endpoints).response@ matches Some(response) ==> encodable(*encode, *response),
        ensures
            final(channel).same_gates(*old(channel)),
            exists|middle: (ChannelView<P>, Seq<(JsonTree, u64)>)|
                {
                    &&& delivery(
                        *downcast,
                        access,
                        (old(channel)@, old(self)@, old(endpoints).request@),
                        (middle.0, middle.1, final(endpoints).request@),
                    )
                    &&& #[trigger] collection(
                        *encode,
                        access,
                        (middle.0, middle.1, old(endpoints).response@),
                        (final(channel)@, final(self)@, final(endpoints).response@),
                    )
                },
    {
        let ghost before = (channel@, self@, endpoints.request@);
        if !endpoints.request.is_set(access.probe) && channel.inbox.len() > 0 {
            let typed = downcast(&channel.inbox[0].payload);
            assert(channel@.inbox[0].payload == channel.inbox@[0].payload);
            self.deliver_front(channel, &mut endpoints.request, access.deliver, typed);
            assert(delivery(
                *downcast,
                access,
                before,
                (channel@, self@, endpoints.request@),
            ));
        }
        let ghost middle = (channel@, self@);
        // The slot holds one response, and nothing refills it meanwhile.
        if let Some(response) = endpoints.response.take(access.collect) {
            let taken = take_out(response);
            assert(crate::raw::unwraps(response, taken));
            self.collect_taken(
                channel,
                &mut endpoints.response,
                access.put_back,
                taken,
                encode,
            );
        }
        assert(collection(
            *encode,
            access,
            (middle.0, middle.1, old(endpoints).response@),
            (channel@, self@, endpoints.response@),
        ));
    }
}

/// The delivering half of a relay run: nothing happens unless the slot is seen
/// to be free and a request is queued.
pub open spec fn delivery<P, Req, D: Fn(&P) -> Option<Arc<Req>>>(
    downcast: D,
    access: RelayAccess,
    before: (ChannelView<P>, Seq<(JsonTree, u64)>, Option<Arc<Req>>),
    after: (ChannelView<P>, Seq<(JsonTree, u64)>, Option<Arc<Req>>),
) -> bool {
    if access.probe !is Free || before.2 is Some || before.0.inbox.len() == 0 {
        after == before
    } else {
        exists|typed: Option<Arc<Req>>|
            {
                &&& #[trigger] downcast.ensures((&before.0.inbox[0].payload,), typed)
                &&& after == delivered(before.0, before.1, before.2, access.deliver, typed)
            }
    }
}

/// The value of a response can be encoded.
pub open spec fn encodable<Res, E: Fn(Res) -> Result<Value, String>>(
    encode: E,
    response: Result<Res, DebugHandlerError>,
) -> bool {
    response matches Ok(value) ==> encode.requires((value,))
}

/// The collecting half of a relay run. Whether a response can be taken out of
/// its `Arc` depends on who else holds it.
pub open spec fn collection<P, Res, E: Fn(Res) -> Result<Value, String>>(
    encode: E,
    access: RelayAccess,
    before: (ChannelView<P>, Seq<(JsonTree, u64)>, Option<Arc<Result<Res, DebugHandlerError>>>),
    after: (ChannelView<P>, Seq<(JsonTree, u64)>, Option<Arc<Result<Res, DebugHandlerError>>>),
) -> bool {
    if access.collect is Contended || before.2 is None {
        after == before
    } else if before.1.len() == 0 {
        after == (before.0, before.1, None::<Arc<Result<Res, DebugHandlerError>>>)
    } else {
        let response = before.2->Some_0;
        exists|taken: Result<Result<Res, DebugHandlerError>, Arc<Result<Res, DebugHandlerError>>>|
            {
                &&& #[trigger] crate::raw::unwraps(response, taken)
                &&& if taken is Ok {
                    exists|outcome: HandlerOutcome|
                        {
                            &&& #[trigger] encoded(encode, *response, outcome)
                            &&& (after.0, after.1) == collected(before.0, before.1, Some(outcome))
                            &&& after.2 is None
                        }
                } else {
                    &&& (after.0, after.1) == if access.put_back is Free {
                        (before.0, before.1)
                    } else {
                        collected(before.0, before.1, None)
                    }
                    &&& after.2 == slot_after(None, access.put_back, response)
                }
            }
    }
}

/// Delivering never overwrites a request that was not consumed.
pub proof fn delivery_never_overwrites<P, Req, D: Fn(&P) -> Option<Arc<Req>>>(
    downcast: D,
    access: RelayAccess,
    before: (ChannelView<P>, Seq<(JsonTree, u64)>, Option<Arc<Req>>),
    after: (ChannelView<P>, Seq<(JsonTree, u64)>, Option<Arc<Req>>),
)
    requires
        delivery(downcast, access, before, after),
        before.2 is Some,
    ensures
        after == before,
{
}

/// Collecting keeps the account of pending requests, each of which is queued or
/// in flight, unless a response is lost: then its id is in flight no more, and
/// nothing else has changed.
pub proof fn collection_keeps_balance<P, Res, E: Fn(Res) -> Result<Value, String>>(
    encode: E,
    access: RelayAccess,
    before: (ChannelView<P>, Seq<(JsonTree, u64)>, Option<Arc<Result<Res, DebugHandlerError>>>),
    after: (ChannelView<P>, Seq<(JsonTree, u64)>, Option<Arc<Result<Res, DebugHandlerError>>>),
)
    requires
        collection(encode, access, before, after),
        balanced(before.0, before.1),
    ensures
        balanced(after.0, after.1) || (access.put_back !is Free && after.2 is None && after.0
            == before.0 && after.1 == before.1.skip(1)),
{
}

/// First in, first out: a response is only ever paired with the oldest id in
/// flight, and a response that goes back to its slot leaves every id in flight.
pub proof fn responses_pair_in_order<P, Res, E: Fn(Res) -> Result<Value, String>>(
    encode: E,
    access: RelayAccess,
    before: (ChannelView<P>, Seq<(JsonTree, u64)>, Option<Arc<Result<Res, DebugHandlerError>>>),
    after: (ChannelView<P>, Seq<(JsonTree, u64)>, Option<Arc<Result<Res, DebugHandlerError>>>),
)
    requires
        collection(encode, access, before, after),
    ensures
        after.2 is Some ==> after == before,
        after.0.outbox != before.0.outbox ==> {
            &&& after.1 == before.1.skip(1)
            &&& after.0.outbox == before.0.outbox.push(after.0.outbox.last())
            &&& (after.0.outbox.last().id, after.0.outbox.last().generation) == before.1[0]
        },
        after.1 == before.1 || after.1 == before.1.skip(1),
{
}

/// Delivering keeps the account of pending requests.
pub proof fn delivery_keeps_balance<P, Req, D: Fn(&P) -> Option<Arc<Req>>>(
    downcast: D,
    access: RelayAccess,
    before: (ChannelView<P>, Seq<(JsonTree, u64)>, Option<Arc<Req>>),
    after: (ChannelView<P>, Seq<(JsonTree, u64)>, Option<Arc<Req>>),
)
    requires
        delivery(downcast, access, before, after),
        balanced(before.0, before.1),
    ensures
        balanced(after.0, after.1),
{
}

} // verus!
