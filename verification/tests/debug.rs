use serde_json::Value;
use shiny_song_tools::base::{DataRoot, OwnerId};
use shiny_song_tools::debug_dispatch::{
    map_wire_code, DebugDispatchSystem, DebugIntrospection, DebugTopicView,
};
use shiny_song_tools::debug_plugin::{socket_path, DebugPlugin};
use shiny_song_tools::debug_topic::{
    handler_result, DebugHandlerError, DebugHandlerSystem, DebugResponse, DebugServerError,
    DebugTopicChannel, DebugWireErrorCode, HandlerOutcome, DEBUG_MAX_PENDING,
};
use shiny_song_tools::debug_transport::{
    discard_chunk, encode_frame, frame_text, Connection, ConnectionStep, DebugTransport,
    ReadEvent, MAX_FRAME_BYTES, MAX_INBOX_REQUESTS, MAX_OUTBOX_RESPONSES,
};
use shiny_song_tools::gate::{GateBoard, PluginGate, RuntimeGate};
use std::cell::RefCell;

fn json(text: &str) -> Value {
    serde_json::from_str(text).expect("valid json")
}

struct Session {
    board: GateBoard,
    runtime: RuntimeGate,
    transport: DebugTransport,
    generation: u64,
}

fn session() -> Session {
    let mut board = GateBoard::new();
    let runtime = RuntimeGate::new(&mut board);
    let mut transport = DebugTransport::new(runtime.reader());
    let generation = transport.begin_connection();
    Session {
        board,
        runtime,
        transport,
        generation,
    }
}

impl Session {
    fn frame(&mut self, text: &str) {
        self.transport.handle_frame(text.as_bytes(), self.generation);
    }

    /// The bodies that are written for this connection.
    fn written(&mut self) -> Vec<Value> {
        let mut bodies = Vec::new();
        for response in self.transport.take_responses() {
            match self.transport.release(&response, self.generation) {
                Some(Ok(frame)) => {
                    let length = u32::from_be_bytes([frame[0], frame[1], frame[2], frame[3]]);
                    assert_eq!(length as usize, frame.len() - 4);
                    bodies.push(serde_json::from_slice(&frame[4..]).expect("json body"));
                }
                Some(Err(error)) => panic!("frame: {error:?}"),
                None => {}
            }
        }
        bodies
    }
}

#[test]
fn malformed_frames_are_answered_by_their_error() {
    let cases = [
        (
            "{",
            r#"{"jsonrpc":"2.0","id":null,"error":{"code":-32700,"message":"parse error"}}"#,
        ),
        (
            "[]",
            r#"{"jsonrpc":"2.0","id":null,"error":{"code":-32600,"message":"batch not supported"}}"#,
        ),
        (
            "7",
            r#"{"jsonrpc":"2.0","id":null,"error":{"code":-32600,"message":"invalid request"}}"#,
        ),
        (
            r#"{"jsonrpc":"1.0","id":3,"method":"a"}"#,
            r#"{"jsonrpc":"2.0","id":3,"error":{"code":-32600,"message":"invalid request"}}"#,
        ),
        (
            r#"{"method":"a"}"#,
            r#"{"jsonrpc":"2.0","id":null,"error":{"code":-32600,"message":"invalid request"}}"#,
        ),
        (
            r#"{"jsonrpc":"2.0","id":3,"method":5}"#,
            r#"{"jsonrpc":"2.0","id":null,"error":{"code":-32600,"message":"invalid request"}}"#,
        ),
        (
            r#"{"jsonrpc":"2.0","method":"a"}"#,
            r#"{"jsonrpc":"2.0","id":null,"error":{"code":-32600,"message":"notifications not supported"}}"#,
        ),
    ];
    for (frame, answer) in cases {
        let mut session = session();
        session.frame(frame);
        assert_eq!(session.written(), vec![json(answer)], "{frame}");
        assert!(session.transport.take_requests().is_empty());
    }
}

#[test]
fn requests_keep_their_parts() {
    let mut session = session();
    session.frame(r#"{"jsonrpc":"2.0","id":"x","method":"fps.set","params":{"target":5}}"#);
    session.frame(r#"{"jsonrpc":"2.0","id":null,"method":"fps.get"}"#);
    let requests = session.transport.take_requests();
    assert_eq!(requests.len(), 2);
    assert_eq!(requests[0].id, json("\"x\""));
    assert_eq!(requests[0].method, "fps.set");
    assert_eq!(requests[0].params, json(r#"{"target":5}"#));
    assert_eq!(requests[0].generation, session.generation);
    assert_eq!(requests[1].params, Value::Null);
}

#[test]
fn active_id_is_refused_until_its_answer_is_written() {
    let request = r#"{"jsonrpc":"2.0","id":1,"method":"a"}"#;
    let mut session = session();
    session.frame(request);
    session.frame(request);
    assert_eq!(session.transport.take_requests().len(), 1);
    let duplicate = json(
        r#"{"jsonrpc":"2.0","id":1,"error":{"code":-32600,"message":"duplicate active id"}}"#,
    );
    assert_eq!(session.written(), vec![duplicate.clone()]);
    session.frame(request);
    assert!(session.transport.take_requests().is_empty(), "still active");
    assert_eq!(session.written(), vec![duplicate]);
    // A refused frame that bears the id does not free it either.
    session.frame(r#"{"jsonrpc":"1.0","id":1,"method":"a"}"#);
    assert_eq!(session.written().len(), 1);
    session.frame(request);
    assert!(session.transport.take_requests().is_empty());
    session.transport.respond_ok(json("1"), Value::Null, session.generation);
    assert_eq!(session.written().len(), 2);
    session.frame(request);
    assert_eq!(session.transport.take_requests().len(), 1, "the id is free again");
}

#[test]
fn null_ids_are_never_duplicates() {
    let mut session = session();
    session.frame(r#"{"jsonrpc":"2.0","id":null,"method":"a"}"#);
    session.frame(r#"{"jsonrpc":"2.0","id":null,"method":"a"}"#);
    assert_eq!(session.transport.take_requests().len(), 2);
}

#[test]
fn flooded_inbox_answers_queue_full() {
    let mut session = session();
    for id in 0..MAX_INBOX_REQUESTS + 1 {
        session.frame(&format!(r#"{{"jsonrpc":"2.0","id":{id},"method":"a"}}"#));
    }
    assert_eq!(session.transport.take_requests().len(), MAX_INBOX_REQUESTS);
    let refused = format!(
        r#"{{"jsonrpc":"2.0","id":{MAX_INBOX_REQUESTS},"error":{{"code":-32000,"data":{{"code":"queue_full","message":"transport inbox capacity reached"}}}}}}"#
    );
    assert_eq!(session.written(), vec![json(&refused)]);
}

#[test]
fn stalled_client_does_not_grow_the_outbox() {
    let mut session = session();
    for _ in 0..MAX_OUTBOX_RESPONSES + 3 {
        session.frame("{");
    }
    assert_eq!(session.written().len(), MAX_OUTBOX_RESPONSES);
}

#[test]
fn new_connection_starts_clean() {
    let mut session = session();
    session.frame(r#"{"jsonrpc":"2.0","id":1,"method":"a"}"#);
    session.frame("{");
    let first = session.generation;
    session.generation = session.transport.begin_connection();
    assert_eq!(session.generation, first + 1);
    assert!(session.written().is_empty(), "answers of the old connection are gone");
    session.frame(r#"{"jsonrpc":"2.0","id":1,"method":"a"}"#);
    assert!(session.written().is_empty(), "the id is not a duplicate");
    // A late answer of the old connection is not written to the new one.
    session.transport.respond_ok(json("9"), Value::Null, first);
    assert!(session.written().is_empty());
}

#[test]
fn frames_carry_their_length() {
    assert_eq!(
        encode_frame(&json("{\"a\":1}")).expect("small"),
        b"\0\0\0\x07{\"a\":1}".to_vec()
    );
    assert_eq!(frame_text(b"hi").expect("small"), b"\0\0\0\x02hi".to_vec());
}

#[test]
fn length_prefix_arrives_in_pieces() {
    let mut board = GateBoard::new();
    let runtime = RuntimeGate::new(&mut board);
    let mut transport = DebugTransport::new(runtime.reader());
    let mut connection = Connection::open(&mut transport);
    assert_eq!(connection.missing(), 4);
    assert_eq!(
        connection.after_read(&mut transport, ReadEvent::WouldBlock),
        ConnectionStep::Wait
    );
    assert_eq!(
        connection.after_read(&mut transport, ReadEvent::Bytes(vec![0, 0])),
        ConnectionStep::Continue
    );
    assert_eq!(connection.missing(), 2);
    assert_eq!(
        connection.after_read(&mut transport, ReadEvent::Bytes(vec![1, 2])),
        ConnectionStep::ReadBody(0x102)
    );
    assert_eq!(connection.missing(), 4);
    connection.after_body(&mut transport, br#"{"jsonrpc":"2.0","id":1,"method":"a"}"#);
    assert_eq!(transport.take_requests()[0].method, "a");
    assert_eq!(
        connection.after_read(&mut transport, ReadEvent::Bytes(vec![])),
        ConnectionStep::Close
    );
    assert_eq!(
        connection.after_read(&mut transport, ReadEvent::Failed),
        ConnectionStep::Fail
    );
}

#[test]
fn oversized_frames_are_answered_and_discarded() {
    let mut session = session();
    let mut connection = Connection::open(&mut session.transport);
    session.generation = session.transport.current_generation();
    let length = MAX_FRAME_BYTES + 1;
    assert_eq!(
        connection.after_read(
            &mut session.transport,
            ReadEvent::Bytes(length.to_be_bytes().to_vec())
        ),
        ConnectionStep::Discard(length)
    );
    let answer = json(
        r#"{"jsonrpc":"2.0","id":null,"error":{"code":-32000,"data":{"code":"payload_too_large","message":"frame exceeds the payload limit"}}}"#,
    );
    assert_eq!(session.written(), vec![answer]);
    assert_eq!(discard_chunk(5000), 4096);
    assert_eq!(discard_chunk(904), 904);
}

struct Uptime;

impl DebugIntrospection for Uptime {
    fn introspect(&self, method: &str) -> Option<Value> {
        if method == "runtime.uptime" {
            Some(json("12"))
        } else {
            None
        }
    }
}

fn decode(params: &Value) -> Result<i64, String> {
    params.as_i64().ok_or_else(|| "not a number".to_owned())
}

type Topic = DebugTopicView<i64, fn(&Value) -> Result<i64, String>>;

fn topic(name: &'static str, owner: &PluginGate, runtime: &RuntimeGate) -> Topic {
    DebugTopicView {
        name,
        owner: OwnerId(0),
        channel: DebugTopicChannel::new(owner.reader(), runtime.reader()),
        decode,
    }
}

#[test]
fn requests_are_routed_and_answered() {
    let mut session = session();
    let owner = PluginGate::new(&mut session.board);
    let retired = PluginGate::new(&mut session.board);
    let mut topics = vec![
        topic("a", &owner, &session.runtime),
        topic("b", &retired, &session.runtime),
    ];
    let system = DebugDispatchSystem {
        introspection: Some(Uptime),
    };
    let unavailable = |id: u32, code: &str, message: &str| {
        json(&format!(
            r#"{{"jsonrpc":"2.0","id":{id},"error":{{"code":-32000,"data":{{"code":"{code}","message":"{message}"}}}}}}"#
        ))
    };

    // Before the runtime gate opens only introspection answers.
    session.frame(r#"{"jsonrpc":"2.0","id":1,"method":"runtime.uptime"}"#);
    session.frame(r#"{"jsonrpc":"2.0","id":2,"method":"a","params":5}"#);
    system.run(&mut session.transport, &mut topics, &session.board);
    assert_eq!(
        session.written(),
        vec![
            json(r#"{"jsonrpc":"2.0","id":1,"result":12}"#),
            unavailable(2, "runtime_unavailable", "runtime unavailable"),
        ]
    );

    assert!(session.runtime.open(&mut session.board));
    owner.open(&mut session.board);
    session.frame(r#"{"jsonrpc":"2.0","id":3,"method":"a","params":5}"#);
    session.frame(r#"{"jsonrpc":"2.0","id":4,"method":"a","params":"x"}"#);
    session.frame(r#"{"jsonrpc":"2.0","id":5,"method":"b","params":5}"#);
    session.frame(r#"{"jsonrpc":"2.0","id":6,"method":"c"}"#);
    system.run(&mut session.transport, &mut topics, &session.board);
    assert_eq!(
        session.written(),
        vec![
            json(
                r#"{"jsonrpc":"2.0","id":4,"error":{"code":-32602,"message":"invalid params: not a number"}}"#
            ),
            unavailable(5, "plugin_unavailable", "plugin unavailable"),
            json(
                r#"{"jsonrpc":"2.0","id":6,"error":{"code":-32601,"message":"method not found"}}"#
            ),
        ]
    );

    // The handler system answers what was queued.
    let handler = DebugHandlerSystem {
        handler: |payload: i64| HandlerOutcome::Encoded(Value::from(payload * 2)),
    };
    handler.run(&mut topics[0].channel).expect("handled");
    system.run(&mut session.transport, &mut topics, &session.board);
    assert_eq!(
        session.written(),
        vec![json(r#"{"jsonrpc":"2.0","id":3,"result":10}"#)]
    );
    assert_eq!(topics[0].channel.pending, 0);
}

#[test]
fn pending_requests_of_a_topic_are_bounded() {
    let mut session = session();
    let owner = PluginGate::new(&mut session.board);
    assert!(session.runtime.open(&mut session.board));
    owner.open(&mut session.board);
    let mut topics = vec![topic("a", &owner, &session.runtime)];
    let system: DebugDispatchSystem<Uptime> = DebugDispatchSystem {
        introspection: None,
    };
    for id in 0..DEBUG_MAX_PENDING + 1 {
        session.frame(&format!(
            r#"{{"jsonrpc":"2.0","id":{id},"method":"a","params":1}}"#
        ));
    }
    system.run(&mut session.transport, &mut topics, &session.board);
    assert_eq!(topics[0].channel.pending, DEBUG_MAX_PENDING);
    let refused = format!(
        r#"{{"jsonrpc":"2.0","id":{DEBUG_MAX_PENDING},"error":{{"code":-32000,"data":{{"code":"queue_full","message":"topic pending capacity reached"}}}}}}"#
    );
    assert_eq!(session.written(), vec![json(&refused)]);
}

#[test]
fn every_request_is_unavailable_after_a_global_failure() {
    let mut session = session();
    let owner = PluginGate::new(&mut session.board);
    assert!(session.runtime.open(&mut session.board));
    owner.open(&mut session.board);
    let mut topics = vec![topic("a", &owner, &session.runtime)];
    let system = DebugDispatchSystem {
        introspection: Some(Uptime),
    };
    session.runtime.close(&mut session.board);
    for (id, method) in [(1, "runtime.uptime"), (2, "a"), (3, "none")] {
        session.frame(&format!(r#"{{"jsonrpc":"2.0","id":{id},"method":"{method}"}}"#));
    }
    system.run(&mut session.transport, &mut topics, &session.board);
    let expected: Vec<Value> = (1..4)
        .map(|id| {
            json(&format!(
                r#"{{"jsonrpc":"2.0","id":{id},"error":{{"code":-32000,"data":{{"code":"runtime_unavailable","message":"runtime unavailable"}}}}}}"#
            ))
        })
        .collect();
    assert_eq!(session.written(), expected);
    assert_eq!(topics[0].channel.pending, 0);
}

#[test]
fn stale_requests_and_answers_are_dropped() {
    let mut session = session();
    let owner = PluginGate::new(&mut session.board);
    assert!(session.runtime.open(&mut session.board));
    owner.open(&mut session.board);
    let mut topics = vec![topic("a", &owner, &session.runtime)];
    let system = DebugDispatchSystem {
        introspection: Some(Uptime),
    };
    let first = session.generation;
    session.frame(r#"{"jsonrpc":"2.0","id":1,"method":"a","params":5}"#);
    session.generation = session.transport.begin_connection();
    topics[0].channel.outbox.push(DebugResponse {
        id: json("7"),
        result: Ok(Value::Null),
        generation: first,
    });
    system.run(&mut session.transport, &mut topics, &session.board);
    assert!(session.written().is_empty());
    assert_eq!(topics[0].channel.pending, 0);
    assert!(topics[0].channel.inbox.is_empty());
}

#[test]
fn handler_outcomes_have_their_wire_results() {
    let error = |outcome: HandlerOutcome| match handler_result(outcome) {
        Ok(value) => panic!("unexpected answer {value}"),
        Err(error) => (error.code, error.message),
    };
    assert_eq!(
        handler_result(HandlerOutcome::Encoded(json("[1]"))).ok(),
        Some(json("[1]"))
    );
    let expected = [
        (
            HandlerOutcome::TypeMismatch,
            "internal_error",
            "queued request type mismatch",
        ),
        (
            HandlerOutcome::ExtraReferences,
            "internal_error",
            "queued request has extra references",
        ),
        (
            HandlerOutcome::ParamsInvalid,
            "plugin_unavailable",
            "handler params no longer valid",
        ),
        (
            HandlerOutcome::Unencodable("bad".to_owned()),
            "internal_error",
            "bad",
        ),
        (
            HandlerOutcome::Panicked,
            "plugin_unavailable",
            "debug handler panicked",
        ),
    ];
    for (outcome, name, text) in expected {
        let (code, message) = error(outcome);
        match code {
            DebugWireErrorCode::ServerError(server) => assert_eq!(server.code_name(), name),
            _ => panic!("not a server error"),
        }
        assert_eq!(message, text);
    }
    let (code, message) = error(HandlerOutcome::Failed(DebugHandlerError("no".to_owned())));
    assert!(matches!(
        code,
        DebugWireErrorCode::ServerError(DebugServerError::HandlerError)
    ));
    assert_eq!(message, "no");
}

#[test]
fn wire_codes_and_names_are_stable() {
    assert_eq!(map_wire_code(DebugWireErrorCode::MethodNotFound), -32601);
    assert_eq!(map_wire_code(DebugWireErrorCode::InvalidParams), -32602);
    assert_eq!(
        map_wire_code(DebugWireErrorCode::ServerError(DebugServerError::QueueFull)),
        -32000
    );
    let names = [
        (DebugServerError::RuntimeUnavailable, "runtime_unavailable"),
        (DebugServerError::QueueFull, "queue_full"),
        (DebugServerError::PayloadTooLarge, "payload_too_large"),
        (DebugServerError::PluginUnavailable, "plugin_unavailable"),
        (DebugServerError::HandlerError, "handler_error"),
        (DebugServerError::InternalError, "internal_error"),
    ];
    for (error, name) in names {
        assert_eq!(error.code_name(), name);
    }
}

#[test]
fn handlers_run_in_order_of_arrival() {
    let mut board = GateBoard::new();
    let runtime = RuntimeGate::new(&mut board);
    let owner = PluginGate::new(&mut board);
    let mut channel: DebugTopicChannel<u32> =
        DebugTopicChannel::new(owner.reader(), runtime.reader());
    assert!(!channel.dispatchable(&board));
    for payload in 1..4 {
        assert!(channel.enqueue(Value::from(payload), payload, 1).is_ok());
    }
    let seen = RefCell::new(Vec::new());
    let system = DebugHandlerSystem {
        handler: |payload: u32| {
            seen.borrow_mut().push(payload);
            HandlerOutcome::Encoded(Value::from(payload))
        },
    };
    system.run(&mut channel).expect("handled");
    assert_eq!(*seen.borrow(), vec![1, 2, 3]);
    assert_eq!(channel.pending, 0);
    assert_eq!(channel.outbox.len(), 3);
    assert_eq!(channel.outbox[0].id, Value::from(1));
}

#[test]
fn debug_plugin_listens_under_the_data_root() {
    assert_eq!(DebugPlugin.name(), "debug");
    assert_eq!(
        socket_path(&DataRoot::new("/tmp/docs".to_owned())),
        "/tmp/docs/shiny-song-tools/d.sock"
    );
}
