use serde_json::Value;
use shiny_song_tools::container::{SharedSlot, SlotAccess};
use shiny_song_tools::debug_relay::{
    CallbackDebugEndpoints, CallbackRelaySystem, EndpointAccess, RelayAccess,
};
use shiny_song_tools::debug_topic::{
    DebugHandlerError, DebugServerError, DebugTopicChannel, DebugWireErrorCode,
};
use shiny_song_tools::gate::{GateBoard, PluginGate, RuntimeGate};
use std::sync::Arc;

type Channel = DebugTopicChannel<Option<u32>>;

const FREE: RelayAccess = RelayAccess {
    probe: SlotAccess::Free,
    deliver: SlotAccess::Free,
    collect: SlotAccess::Free,
    put_back: SlotAccess::Free,
};

const HANDS: EndpointAccess = EndpointAccess {
    take: SlotAccess::Free,
    put_back: SlotAccess::Free,
    answer: SlotAccess::Free,
};

fn channel(payloads: &[Option<u32>]) -> Channel {
    let mut board = GateBoard::new();
    let runtime = RuntimeGate::new(&mut board);
    let owner = PluginGate::new(&mut board);
    let mut channel = DebugTopicChannel::new(owner.reader(), runtime.reader());
    for (index, payload) in payloads.iter().enumerate() {
        assert!(channel.enqueue(Value::from(index), *payload, 3).is_ok());
    }
    channel
}

/// The request type of the topic is a number; anything else is a mismatch.
fn typed(payload: &Option<u32>) -> Option<Arc<u32>> {
    payload.map(Arc::new)
}

fn encode(value: u32) -> Result<Value, String> {
    if value < 1000 {
        Ok(Value::from(value))
    } else {
        Err("too large".to_owned())
    }
}

/// Answers the delivered request with its double.
fn answer(endpoints: &mut CallbackDebugEndpoints<u32, u32>) {
    let request = endpoints.request.take(SlotAccess::Free).expect("delivered");
    let taken = Arc::try_unwrap(request);
    assert!(endpoints.handle_taken(taken, HANDS, |request| Ok(request * 2)));
}

#[test]
fn requests_travel_one_at_a_time_and_come_back() {
    let mut channel = channel(&[Some(4), Some(5)]);
    let mut endpoints = CallbackDebugEndpoints::new();
    let mut relay = CallbackRelaySystem::new();
    relay.run(&mut channel, &mut endpoints, FREE, &typed, &encode);
    assert_eq!(channel.inbox.len(), 1);
    // The slot is taken: the second request waits.
    relay.run(&mut channel, &mut endpoints, FREE, &typed, &encode);
    assert_eq!(channel.inbox.len(), 1, "a delivered request is never overwritten");
    assert_eq!(endpoints.request.try_read(SlotAccess::Free).as_deref(), Some(&4));

    answer(&mut endpoints);
    relay.run(&mut channel, &mut endpoints, FREE, &typed, &encode);
    assert_eq!(channel.outbox.len(), 1);
    assert_eq!(channel.outbox[0].id, Value::from(0));
    assert_eq!(channel.outbox[0].generation, 3);
    assert!(matches!(&channel.outbox[0].result, Ok(value) if *value == Value::from(8)));
    assert_eq!(channel.pending, 1);

    answer(&mut endpoints);
    relay.run(&mut channel, &mut endpoints, FREE, &typed, &encode);
    assert!(matches!(&channel.outbox[1].result, Ok(value) if *value == Value::from(10)));
    assert_eq!(channel.pending, 0);
}

#[test]
fn mismatched_payload_is_answered_internal_error() {
    let mut channel = channel(&[None]);
    let mut endpoints: CallbackDebugEndpoints<u32, u32> = CallbackDebugEndpoints::new();
    let mut relay = CallbackRelaySystem::new();
    relay.run(&mut channel, &mut endpoints, FREE, &typed, &encode);
    assert!(!endpoints.request.is_set(SlotAccess::Free));
    assert_eq!(channel.pending, 0);
    match &channel.outbox[0].result {
        Err(error) => assert!(matches!(
            error.code,
            DebugWireErrorCode::ServerError(DebugServerError::InternalError)
        )),
        Ok(value) => panic!("unexpected answer {value}"),
    }
}

#[test]
fn refusals_and_unencodable_answers_come_back_as_errors() {
    let mut channel = channel(&[Some(1), Some(600)]);
    let mut endpoints = CallbackDebugEndpoints::new();
    let mut relay = CallbackRelaySystem::new();
    relay.run(&mut channel, &mut endpoints, FREE, &typed, &encode);
    let request = endpoints.request.take(SlotAccess::Free).expect("delivered");
    assert!(endpoints.handle_taken(Arc::try_unwrap(request), HANDS, |_| {
        Err(DebugHandlerError("no".to_owned()))
    }));
    relay.run(&mut channel, &mut endpoints, FREE, &typed, &encode);
    answer(&mut endpoints);
    relay.run(&mut channel, &mut endpoints, FREE, &typed, &encode);
    let texts: Vec<_> = channel
        .outbox
        .iter()
        .map(|response| match &response.result {
            Ok(value) => panic!("unexpected answer {value}"),
            Err(error) => error.message.clone(),
        })
        .collect();
    assert_eq!(texts, vec!["no", "too large"]);
}

#[test]
fn contended_slots_wait_for_the_next_frame() {
    let mut channel = channel(&[Some(4)]);
    let mut endpoints: CallbackDebugEndpoints<u32, u32> = CallbackDebugEndpoints::new();
    let mut relay = CallbackRelaySystem::new();
    let contended = RelayAccess {
        probe: SlotAccess::Contended,
        deliver: SlotAccess::Free,
        collect: SlotAccess::Free,
        put_back: SlotAccess::Free,
    };
    relay.run(&mut channel, &mut endpoints, contended, &typed, &encode);
    assert_eq!(channel.inbox.len(), 1);
    assert!(!endpoints.request.is_set(SlotAccess::Free));
}

#[test]
fn request_with_another_holder_is_put_back() {
    let mut endpoints: CallbackDebugEndpoints<u32, u32> = CallbackDebugEndpoints::new();
    let request = Arc::new(4);
    let holder = Arc::clone(&request);
    assert!(endpoints
        .request
        .try_send(SlotAccess::Free, request)
        .is_ok());
    let taken = endpoints.request.take(SlotAccess::Free).expect("there");
    assert!(!endpoints.handle_taken(Arc::try_unwrap(taken), HANDS, |_| panic!("not handled")));
    assert!(endpoints.request.is_set(SlotAccess::Free));
    assert_eq!(*holder, 4);
    let empty: SharedSlot<u32> = SharedSlot::new();
    assert!(!empty.is_set(SlotAccess::Free));
}

#[test]
fn response_with_another_holder_keeps_its_id_in_flight() {
    let mut channel = channel(&[Some(4), Some(5)]);
    let mut endpoints = CallbackDebugEndpoints::new();
    let mut relay = CallbackRelaySystem::new();
    relay.run(&mut channel, &mut endpoints, FREE, &typed, &encode);
    answer(&mut endpoints);
    let holder = endpoints.response.try_read(SlotAccess::Free).expect("answered");
    relay.run(&mut channel, &mut endpoints, FREE, &typed, &encode);
    assert!(channel.outbox.is_empty(), "the response goes back");
    assert!(endpoints.response.is_set(SlotAccess::Free));
    drop(holder);
    relay.run(&mut channel, &mut endpoints, FREE, &typed, &encode);
    assert_eq!(channel.outbox[0].id, Value::from(0));
    assert!(matches!(&channel.outbox[0].result, Ok(value) if *value == Value::from(8)));
    answer(&mut endpoints);
    relay.run(&mut channel, &mut endpoints, FREE, &typed, &encode);
    assert_eq!(channel.outbox[1].id, Value::from(1));
    assert_eq!(channel.pending, 0);
}

#[test]
fn lost_response_takes_its_id_along() {
    let mut channel = channel(&[Some(4), Some(5)]);
    let mut endpoints = CallbackDebugEndpoints::new();
    let mut relay = CallbackRelaySystem::new();
    relay.run(&mut channel, &mut endpoints, FREE, &typed, &encode);
    answer(&mut endpoints);
    let _holder = endpoints.response.try_read(SlotAccess::Free).expect("answered");
    let contended = RelayAccess {
        put_back: SlotAccess::Contended,
        ..FREE
    };
    relay.run(&mut channel, &mut endpoints, contended, &typed, &encode);
    assert!(channel.outbox.is_empty());
    answer(&mut endpoints);
    relay.run(&mut channel, &mut endpoints, FREE, &typed, &encode);
    assert_eq!(channel.outbox[0].id, Value::from(1), "paired with its own request");
}
