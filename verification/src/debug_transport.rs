//! The debug control plane's transport state.
//!
//! JSON-RPC 2.0 over a stream of length-prefixed frames (4-byte big-endian
//! length and UTF-8 JSON), one client at a time. Every request carries the
//! connection generation it arrived on and every response carries it back: a
//! request or answer whose connection is gone is dropped instead of being
//! mixed into the next session. The queues are bounded: overflow answers
//! `queue_full` on the request side and drops the newest response on the
//! write side.

use serde_json::Value;
use vstd::prelude::*;

use crate::debug_topic::DebugServerError;
use crate::gate::GateReader;
use crate::json::{
    json_as_str, json_clone, json_from_slice, json_get, json_insert, json_integer, json_is_array,
    json_is_null, json_is_object, json_null, json_object, json_string, json_to_string,
    json_to_vec, JsonTree,
};
use crate::text::same_text;

verus! {

/// Largest accepted frame body.
pub const MAX_FRAME_BYTES: u32 = 1024 * 1024;

/// Most requests that wait for dispatch.
pub const MAX_INBOX_REQUESTS: usize = 128;

/// Most responses that wait to be written.
pub const MAX_OUTBOX_RESPONSES: usize = 256;

/// One request as it arrived.
pub struct WireRequest {
    pub id: Value,
    pub method: String,
    pub params: Value,
    pub generation: u64,
}

/// What a wire request stands for.
pub struct RequestView {
    pub id: JsonTree,
    pub method: Seq<char>,
    pub params: JsonTree,
    pub generation: u64,
}

impl View for WireRequest {
    type V = RequestView;

    open spec fn view(&self) -> RequestView {
        RequestView {
            id: crate::json::json_tree(self.id),
            method: self.method@,
            params: crate::json::json_tree(self.params),
            generation: self.generation,
        }
    }
}

/// One response to be written.
pub struct WireResponse {
    pub body: Value,
    pub generation: u64,
    /// Whether this answers a request that was taken in; a frame that was
    /// refused has no request.
    pub answers: bool,
}

/// What a wire response stands for.
pub struct WireView {
    pub body: JsonTree,
    pub generation: u64,
    pub answers: bool,
}

impl View for WireResponse {
    type V = WireView;

    open spec fn view(&self) -> WireView {
        WireView {
            body: crate::json::json_tree(self.body),
            generation: self.generation,
            answers: self.answers,
        }
    }
}

/// Transport state between the I/O worker and the dispatch system.
pub struct DebugTransport {
    inbox: Vec<WireRequest>,
    outbox: Vec<WireResponse>,
    /// After a global failure, new requests answer `runtime_unavailable`.
    runtime_gate: GateReader,
    /// Delivered and unanswered request ids of the current connection, in
    /// serialised form. `null` is not trackable and never recorded.
    active_ids: Vec<String>,
    /// Monotonic connection counter: bumped once per accepted connection.
    generation: u64,
}

/// What the transport holds.
#[verifier::ext_equal]
pub struct TransportView {
    pub inbox: Seq<RequestView>,
    pub outbox: Seq<WireView>,
    pub active: Seq<Seq<char>>,
    pub generation: u64,
}

impl View for DebugTransport {
    type V = TransportView;

    closed spec fn view(&self) -> TransportView {
        TransportView {
            inbox: self.inbox@.map_values(|request: WireRequest| request@),
            outbox: self.outbox@.map_values(|response: WireResponse| response@),
            active: self.active_ids@.map_values(|id: String| id@),
            generation: self.generation,
        }
    }
}

// ---------------------------------------------------------------------------
// Bodies
// ---------------------------------------------------------------------------

/// The envelope of a response: version and id.
pub open spec fn envelope(id: JsonTree) -> JsonTree {
    crate::json::with_member(
        crate::json::with_member(
            crate::json::empty_object(),
            "jsonrpc"@,
            JsonTree::Text("2.0"@),
        ),
        "id"@,
        id,
    )
}

/// The body of a successful response.
pub open spec fn ok_body(id: JsonTree, result: JsonTree) -> JsonTree {
    crate::json::with_member(envelope(id), "result"@, result)
}

/// The error object of a response: a server error carries its name and the
/// message as data, any other error carries the message itself.
pub open spec fn error_object(
    code: int,
    data_code: Option<Seq<char>>,
    message: Seq<char>,
) -> JsonTree {
    let numbered = crate::json::with_member(
        crate::json::empty_object(),
        "code"@,
        JsonTree::Integer(code),
    );
    match data_code {
        Some(name) => crate::json::with_member(
            numbered,
            "data"@,
            crate::json::with_member(
                crate::json::with_member(
                    crate::json::empty_object(),
                    "code"@,
                    JsonTree::Text(name),
                ),
                "message"@,
                JsonTree::Text(message),
            ),
        ),
        None => crate::json::with_member(numbered, "message"@, JsonTree::Text(message)),
    }
}

/// The body of a failed response.
pub open spec fn error_body(
    id: JsonTree,
    code: int,
    data_code: Option<Seq<char>>,
    message: Seq<char>,
) -> JsonTree {
    crate::json::with_member(envelope(id), "error"@, error_object(code, data_code, message))
}

/// The transport after a response was handed to it.
pub open spec fn handed(state: TransportView, response: WireView) -> TransportView {
    if state.outbox.len() >= MAX_OUTBOX_RESPONSES {
        state
    } else {
        TransportView { outbox: state.outbox.push(response), ..state }
    }
}

/// The transport after a request that was taken in was answered with `body`.
pub open spec fn pushed(state: TransportView, body: JsonTree, generation: u64) -> TransportView {
    handed(state, WireView { body, generation, answers: true })
}

/// The transport after a request was answered with an error.
pub open spec fn rejected(
    state: TransportView,
    id: JsonTree,
    code: int,
    data_code: Option<Seq<char>>,
    message: Seq<char>,
    generation: u64,
) -> TransportView {
    pushed(state, error_body(id, code, data_code, message), generation)
}

/// The transport after a frame was refused with an error.
pub open spec fn refused(
    state: TransportView,
    id: JsonTree,
    code: int,
    data_code: Option<Seq<char>>,
    message: Seq<char>,
    generation: u64,
) -> TransportView {
    handed(
        state,
        WireView { body: error_body(id, code, data_code, message), generation, answers: false },
    )
}

fn json_envelope(id: Value) -> (r: Value)
    ensures
        crate::json::json_tree(r) == envelope(crate::json::json_tree(id)),
{
    let mut body = json_object();
    json_insert(&mut body, "jsonrpc", json_string("2.0"));
    json_insert(&mut body, "id", id);
    body
}

fn json_error(id: Value, code: i64, data_code: Option<&str>, message: &str) -> (r: Value)
    ensures
        crate::json::json_tree(r) == error_body(
            crate::json::json_tree(id),
            code as int,
            text_view(data_code),
            message@,
        ),
{
    let mut body = json_envelope(id);
    let mut error = json_object();
    json_insert(&mut error, "code", json_integer(code));
    match data_code {
        Some(name) => {
            let mut data = json_object();
            json_insert(&mut data, "code", json_string(name));
            json_insert(&mut data, "message", json_string(message));
            json_insert(&mut error, "data", data);
        },
        None => {
            json_insert(&mut error, "message", json_string(message));
        },
    }
    json_insert(&mut body, "error", error);
    body
}

/// The view of an optional text.
pub open spec fn text_view(text: Option<&str>) -> Option<Seq<char>> {
    match text {
        Some(text) => Some(text@),
        None => None,
    }
}

// ---------------------------------------------------------------------------
// Requests
// ---------------------------------------------------------------------------

/// Serialised form of a trackable (non-null) request id.
pub open spec fn tracked_key(id: JsonTree) -> Option<Seq<char>> {
    if id is Null {
        None
    } else {
        crate::json::json_text(id)
    }
}

/// The text of the member `key`, if it is a string.
pub open spec fn member_text(tree: JsonTree, key: Seq<char>) -> Option<Seq<char>> {
    match crate::json::member(tree, key) {
        Some(item) => crate::json::text_of(item),
        None => None,
    }
}

/// The member `key`, or null.
pub open spec fn member_or_null(tree: JsonTree, key: Seq<char>) -> JsonTree {
    match crate::json::member(tree, key) {
        Some(item) => item,
        None => JsonTree::Null,
    }
}

/// The transport after a well-formed request, given the serialised form of its
/// id. An id that is active on the connection is refused, and so is a request
/// that finds the inbox full; the id of the latter stays active until its
/// answer is written.
pub open spec fn admitted(
    state: TransportView,
    key: Option<Seq<char>>,
    request: RequestView,
) -> TransportView {
    if key is Some && state.active.contains(key->Some_0) {
        refused(
            state,
            request.id,
            -32600,
            None,
            "duplicate active id"@,
            request.generation,
        )
    } else {
        let noted = match key {
            Some(key) => TransportView { active: state.active.push(key), ..state },
            None => state,
        };
        if state.inbox.len() >= MAX_INBOX_REQUESTS {
            rejected(
                noted,
                request.id,
                -32000,
                Some(DebugServerError::QueueFull.name()),
                "transport inbox capacity reached"@,
                request.generation,
            )
        } else {
            TransportView { inbox: state.inbox.push(request), ..noted }
        }
    }
}

/// The transport after a frame, given what its body was read as.
pub open spec fn frame_handled(
    state: TransportView,
    parsed: Option<JsonTree>,
    generation: u64,
) -> TransportView {
    match parsed {
        None => refused(state, JsonTree::Null, -32700, None, "parse error"@, generation),
        Some(tree) => if tree is List {
            refused(state, JsonTree::Null, -32600, None, "batch not supported"@, generation)
        } else if tree !is Table {
            refused(state, JsonTree::Null, -32600, None, "invalid request"@, generation)
        } else if member_text(tree, "jsonrpc"@) != Some("2.0"@) {
            refused(
                state,
                member_or_null(tree, "id"@),
                -32600,
                None,
                "invalid request"@,
                generation,
            )
        } else if member_text(tree, "method"@) is None {
            refused(state, JsonTree::Null, -32600, None, "invalid request"@, generation)
        } else if crate::json::member(tree, "id"@) is None {
            refused(
                state,
                JsonTree::Null,
                -32600,
                None,
                "notifications not supported"@,
                generation,
            )
        } else {
            let id = member_or_null(tree, "id"@);
            admitted(
                state,
                tracked_key(id),
                RequestView {
                    id,
                    method: member_text(tree, "method"@)->Some_0,
                    params: member_or_null(tree, "params"@),
                    generation,
                },
            )
        },
    }
}

/// Serialised form of a trackable (non-null) request id; `None` for `null`.
fn trackable_id(id: &Value) -> (r: Option<String>)
    ensures
        r is Some <==> tracked_key(crate::json::json_tree(*id)) is Some,
        r is Some ==> r->Some_0@ == tracked_key(crate::json::json_tree(*id))->Some_0,
{
    if json_is_null(id) {
        return None;
    }
    json_to_string(id)
}

fn get_text<'a>(value: &'a Value, key: &str) -> (r: Option<&'a str>)
    ensures
        r is Some <==> member_text(crate::json::json_tree(*value), key@) is Some,
        r is Some ==> r->Some_0@ == member_text(crate::json::json_tree(*value), key@)->Some_0,
{
    match json_get(value, key) {
        Some(item) => json_as_str(item),
        None => None,
    }
}

fn get_or_null(value: &Value, key: &str) -> (r: Value)
    ensures
        crate::json::json_tree(r) == member_or_null(crate::json::json_tree(*value), key@),
{
    match json_get(value, key) {
        Some(item) => json_clone(item),
        None => json_null(),
    }
}

impl DebugTransport {
    /// The runtime gate.
    pub closed spec fn gate(&self) -> GateReader {
        self.runtime_gate
    }

    /// A transport that has seen no connection.
    pub fn new(runtime_gate: GateReader) -> (r: Self)
        ensures
            r@ == (TransportView {
                inbox: Seq::empty(),
                outbox: Seq::empty(),
                active: Seq::empty(),
                generation: 0,
            }),
            r.gate() == runtime_gate,
    {
        let r = DebugTransport {
            inbox: Vec::new(),
            outbox: Vec::new(),
            runtime_gate,
            active_ids: Vec::new(),
            generation: 0,
        };
        assert(r@ =~= (TransportView {
            inbox: Seq::empty(),
            outbox: Seq::empty(),
            active: Seq::empty(),
            generation: 0,
        }));
        r
    }

    /// Generation of the connection being accepted (monotonic, starts at 1).
    pub fn next_generation(&mut self) -> (r: u64)
        requires
            old(self)@.generation < u64::MAX,
        ensures
            r == old(self)@.generation + 1,
            final(self)@ == (TransportView { generation: r, ..old(self)@ }),
            final(self).gate() == old(self).gate(),
    {
        self.generation = self.generation + 1;
        self.generation
    }

    pub fn current_generation(&self) -> (r: u64)
        ensures
            r == self@.generation,
    {
        self.generation
    }

    /// Hands a response to the writer. When the client has stopped reading,
    /// the newest answer is dropped instead of growing without bound.
    fn hand_over(&mut self, response: WireResponse)
        ensures
            final(self)@ == handed(old(self)@, response@),
            final(self).gate() == old(self).gate(),
    {
        if self.outbox.len() >= MAX_OUTBOX_RESPONSES {
            return ;
        }
        self.outbox.push(response);
        assert(self@.outbox =~= old(self)@.outbox.push(response@));
    }

    /// Hands the answer to a request that was taken in to the writer, or drops
    /// it when the client has stopped reading.
    pub fn push_response(&mut self, body: Value, generation: u64)
        ensures
            final(self)@ == pushed(old(self)@, crate::json::json_tree(body), generation),
            final(self).gate() == old(self).gate(),
    {
        self.hand_over(WireResponse { body, generation, answers: true });
    }

    pub fn respond_ok(&mut self, id: Value, result: Value, generation: u64)
        ensures
            final(self)@ == pushed(
                old(self)@,
                ok_body(crate::json::json_tree(id), crate::json::json_tree(result)),
                generation,
            ),
            final(self).gate() == old(self).gate(),
    {
        let mut body = json_envelope(id);
        json_insert(&mut body, "result", result);
        self.push_response(body, generation);
    }

    pub fn respond_error(
        &mut self,
        id: Value,
        code: i64,
        data_code: Option<&str>,
        message: &str,
        generation: u64,
    )
        ensures
            final(self)@ == rejected(
                old(self)@,
                crate::json::json_tree(id),
                code as int,
                text_view(data_code),
                message@,
                generation,
            ),
            final(self).gate() == old(self).gate(),
    {
        self.push_response(json_error(id, code, data_code, message), generation);
    }

    /// Refuses a frame with an error. The id of a refused frame stays as active
    /// as it was.
    fn refuse(
        &mut self,
        id: Value,
        code: i64,
        data_code: Option<&str>,
        message: &str,
        generation: u64,
    )
        ensures
            final(self)@ == refused(
                old(self)@,
                crate::json::json_tree(id),
                code as int,
                text_view(data_code),
                message@,
                generation,
            ),
            final(self).gate() == old(self).gate(),
    {
        let body = json_error(id, code, data_code, message);
        self.hand_over(WireResponse { body, generation, answers: false });
    }

    /// Takes one frame body: answers it where it is no request, and queues the
    /// request that it is otherwise.
    pub fn handle_frame(&mut self, bytes: &[u8], generation: u64)
        ensures
            final(self)@ == frame_handled(
                old(self)@,
                crate::json::json_parse(bytes@),
                generation,
            ),
            final(self).gate() == old(self).gate(),
    {
        self.handle_value(json_from_slice(bytes), generation);
    }

    /// Takes one frame body, given what it was read as.
    pub fn handle_value(&mut self, parsed: Option<Value>, generation: u64)
        ensures
            final(self)@ == frame_handled(
                old(self)@,
                match parsed {
                    Some(value) => Some(crate::json::json_tree(value)),
                    None => None,
                },
                generation,
            ),
            final(self).gate() == old(self).gate(),
    {
        let value = match parsed {
            Some(value) => value,
            None => {
                self.refuse(json_null(), -32700, None, "parse error", generation);
                return ;
            },
        };
        if json_is_array(&value) {
            self.refuse(json_null(), -32600, None, "batch not supported", generation);
            return ;
        }
        if !json_is_object(&value) {
            self.refuse(json_null(), -32600, None, "invalid request", generation);
            return ;
        }
        let version_ok: bool = match get_text(&value, "jsonrpc") {
            Some(version) => same_text(version, "2.0"),
            None => false,
        };
        if !version_ok {
            self.refuse(
                get_or_null(&value, "id"),
                -32600,
                None,
                "invalid request",
                generation,
            );
            return ;
        }
        let method: String = match get_text(&value, "method") {
            Some(method) => method.to_owned(),
            None => {
                self.refuse(json_null(), -32600, None, "invalid request", generation);
                return ;
            },
        };
        let id = match json_get(&value, "id") {
            Some(id) => json_clone(id),
            None => {
                // A method without an id is a notification.
                self.refuse(
                    json_null(),
                    -32600,
                    None,
                    "notifications not supported",
                    generation,
                );
                return ;
            },
        };
        let key: Option<String> = trackable_id(&id);
        let params = get_or_null(&value, "params");
        self.take_request(key, WireRequest { id, method, params, generation });
    }

    fn is_active(&self, key: &String) -> (r: bool)
        ensures
            r == self@.active.contains(key@),
    {
        let mut index: usize = 0;
        while index < self.active_ids.len()
            invariant
                index <= self.active_ids.len(),
                forall|i: int| 0 <= i < index ==> self@.active[i] != key@,
            decreases self.active_ids.len() - index,
        {
            assert(self@.active[index as int] == self.active_ids@[index as int]@);
            if self.active_ids[index] == *key {
                return true;
            }
            index = index + 1;
        }
        false
    }

    /// Takes one well-formed request, given the serialised form of its id.
    pub fn take_request(&mut self, key: Option<String>, request: WireRequest)
        ensures
            final(self)@ == admitted(
                old(self)@,
                match key {
                    Some(key) => Some(key@),
                    None => None,
                },
                request@,
            ),
            final(self).gate() == old(self).gate(),
    {
        match key {
            Some(key) => {
                if self.is_active(&key) {
                    self.refuse(
                        request.id,
                        -32600,
                        None,
                        "duplicate active id",
                        request.generation,
                    );
                    return ;
                }
                let ghost text = key@;
                self.active_ids.push(key);
                assert(self@.active =~= old(self)@.active.push(text));
            },
            None => {},
        }
        if self.inbox.len() >= MAX_INBOX_REQUESTS {
            self.respond_error(
                request.id,
                -32000,
                Some(DebugServerError::QueueFull.code_name()),
                "transport inbox capacity reached",
                request.generation,
            );
            return ;
        }
        self.inbox.push(request);
        assert(self@.inbox =~= old(self)@.inbox.push(request@));
    }
}

// ---------------------------------------------------------------------------
// Connections
// ---------------------------------------------------------------------------

/// The responses of one connection.
pub open spec fn of_generation(outbox: Seq<WireView>, generation: u64) -> Seq<WireView>
    decreases outbox.len(),
{
    if outbox.len() == 0 {
        Seq::empty()
    } else {
        let rest = of_generation(outbox.drop_last(), generation);
        if outbox.last().generation == generation {
            rest.push(outbox.last())
        } else {
            rest
        }
    }
}

/// `ids` without every occurrence of `key`.
pub open spec fn without(ids: Seq<Seq<char>>, key: Seq<char>) -> Seq<Seq<char>>
    decreases ids.len(),
{
    if ids.len() == 0 {
        Seq::empty()
    } else {
        let rest = without(ids.drop_last(), key);
        if ids.last() == key {
            rest
        } else {
            rest.push(ids.last())
        }
    }
}

/// The id key of a response body, if it is trackable.
pub open spec fn body_key(body: JsonTree) -> Option<Seq<char>> {
    match crate::json::member(body, "id"@) {
        Some(id) => tracked_key(id),
        None => None,
    }
}

/// The transport after `response` was written: the id of the request that it
/// answers is not active any more.
pub open spec fn written(state: TransportView, response: WireView) -> TransportView {
    match body_key(response.body) {
        Some(key) => if response.answers {
            TransportView { active: without(state.active, key), ..state }
        } else {
            state
        },
        None => state,
    }
}

/// Big-endian bytes of a frame length.
pub open spec fn length_bytes(length: u32) -> Seq<u8> {
    seq![
        ((length >> 24) & 0xFF) as u8,
        ((length >> 16) & 0xFF) as u8,
        ((length >> 8) & 0xFF) as u8,
        (length & 0xFF) as u8,
    ]
}

/// The frame length that four big-endian bytes spell.
pub open spec fn length_of(bytes: Seq<u8>) -> u32 {
    ((bytes[0] as u32) << 24) | ((bytes[1] as u32) << 16) | ((bytes[2] as u32) << 8) | (
    bytes[3] as u32)
}

/// Why a response cannot be framed.
#[derive(Debug, Clone, Copy, PartialEq, Eq, Structural)]
pub enum FrameError {
    /// The body cannot be written as JSON text.
    Unwritable,
    /// The text is longer than a length prefix can say.
    TooLarge,
}

/// The frame of a body: 4-byte big-endian length prefix and UTF-8 JSON text.
pub fn encode_frame(body: &Value) -> (r: Result<Vec<u8>, FrameError>)
    ensures
        match crate::json::json_bytes(crate::json::json_tree(*body)) {
            None => r == Err::<Vec<u8>, FrameError>(FrameError::Unwritable),
            Some(text) => if text.len() > u32::MAX {
                r == Err::<Vec<u8>, FrameError>(FrameError::TooLarge)
            } else {
                r is Ok && r->Ok_0@ == length_bytes(text.len() as u32) + text
            },
        },
{
    match json_to_vec(body) {
        Some(text) => frame_text(&text),
        None => Err(FrameError::Unwritable),
    }
}

/// The frame of a body's text.
pub fn frame_text(text: &[u8]) -> (r: Result<Vec<u8>, FrameError>)
    ensures
        if text.len() > u32::MAX {
            r == Err::<Vec<u8>, FrameError>(FrameError::TooLarge)
        } else {
            r is Ok && r->Ok_0@ == length_bytes(text.len() as u32) + text@
        },
{
    if text.len() as u64 > u32::MAX as u64 {
        return Err(FrameError::TooLarge);
    }
    let length: u32 = text.len() as u32;
    let mut frame: Vec<u8> = Vec::new();
    frame.push(((length >> 24) & 0xFF) as u8);
    frame.push(((length >> 16) & 0xFF) as u8);
    frame.push(((length >> 8) & 0xFF) as u8);
    frame.push((length & 0xFF) as u8);
    frame.extend_from_slice(text);
    assert(frame@ =~= length_bytes(length) + text@);
    Ok(frame)
}

/// A frame's first four bytes spell the length of the rest.
pub proof fn frame_round_trip(text: Seq<u8>)
    requires
        text.len() <= u32::MAX,
    ensures
        ({
            let frame = length_bytes(text.len() as u32) + text;
            &&& length_of(frame.take(4)) == text.len()
            &&& frame.skip(4) == text
        }),
{
    let length = text.len() as u32;
    let frame = length_bytes(length) + text;
    assert(frame.take(4) =~= length_bytes(length));
    assert(frame.skip(4) =~= text);
    assert(((((length >> 24) & 0xFF) as u8) as u32) << 24 | ((((length >> 16) & 0xFF) as u8) as u32)
        << 16 | ((((length >> 8) & 0xFF) as u8) as u32) << 8 | (((length & 0xFF) as u8) as u32)
        == length) by (bit_vector);
}

impl DebugTransport {
    /// Opens the scope of a new connection and returns its generation:
    /// leftovers of earlier connections are dropped, and ids that were active
    /// on an earlier connection can be used again.
    pub fn begin_connection(&mut self) -> (r: u64)
        requires
            old(self)@.generation < u64::MAX,
        ensures
            r == old(self)@.generation + 1,
            final(self)@ == (TransportView {
                inbox: old(self)@.inbox,
                outbox: of_generation(old(self)@.outbox, r),
                active: Seq::empty(),
                generation: r,
            }),
            final(self).gate() == old(self).gate(),
    {
        let generation: u64 = self.next_generation();
        let ghost all = self@.outbox;
        let ghost mut seen: int = 0;
        let mut index: usize = 0;
        assert(all.take(0) =~= Seq::<WireView>::empty());
        assert(self@.outbox.take(0) =~= Seq::<WireView>::empty());
        assert(self@.outbox.skip(0) =~= all.skip(0));
        while index < self.outbox.len()
            invariant
                index <= self.outbox.len(),
                index <= seen <= all.len(),
                self@.outbox.take(index as int) == of_generation(all.take(seen), generation),
                self@.outbox.skip(index as int) == all.skip(seen),
                self@.inbox == old(self)@.inbox,
                self@.active == old(self)@.active,
                self@.generation == generation,
                self.gate() == old(self).gate(),
            decreases self.outbox.len() - index,
        {
            let ghost before = self@.outbox;
            proof {
                assert(before.skip(index as int).len() == before.len() - index);
                assert(seen < all.len());
                assert(before.skip(index as int)[0] == all.skip(seen)[0]);
                assert(before[index as int] == all[seen]);
                assert(all.take(seen + 1).drop_last() =~= all.take(seen));
            }
            if self.outbox[index].generation == generation {
                index = index + 1;
                proof {
                    assert(before.take(index as int) =~= before.take(index - 1).push(all[seen]));
                    assert(before.skip(index as int) =~= before.skip(index - 1).skip(1));
                }
            } else {
                let _ = self.outbox.remove(index);
                proof {
                    assert(self@.outbox =~= before.remove(index as int));
                    assert(self@.outbox.take(index as int) =~= before.take(index as int));
                    assert(self@.outbox.skip(index as int) =~= before.skip(index as int).skip(1));
                }
            }
            proof {
                assert(all.skip(seen).skip(1) =~= all.skip(seen + 1));
                seen = seen + 1;
            }
        }
        proof {
            assert(self@.outbox.skip(index as int).len() == 0);
            assert(all.take(seen) =~= all);
            assert(self@.outbox.take(index as int) =~= self@.outbox);
        }
        self.active_ids.clear();
        assert(self@.active =~= Seq::<Seq<char>>::empty());
        generation
    }

    /// Takes every request that waits to be dispatched, oldest first.
    pub fn take_requests(&mut self) -> (r: Vec<WireRequest>)
        ensures
            r@.map_values(|request: WireRequest| request@) == old(self)@.inbox,
            final(self)@ == (TransportView { inbox: Seq::empty(), ..old(self)@ }),
            final(self).gate() == old(self).gate(),
    {
        let mut requests: Vec<WireRequest> = Vec::new();
        std::mem::swap(&mut self.inbox, &mut requests);
        assert(self@.inbox =~= Seq::<RequestView>::empty());
        requests
    }

    /// Read-only side of the runtime gate.
    pub fn runtime_gate(&self) -> (r: GateReader)
        ensures
            r == self.gate(),
    {
        self.runtime_gate
    }

    /// Takes every response that waits to be written, oldest first.
    pub fn take_responses(&mut self) -> (r: Vec<WireResponse>)
        ensures
            r@.map_values(|response: WireResponse| response@) == old(self)@.outbox,
            final(self)@ == (TransportView { outbox: Seq::empty(), ..old(self)@ }),
            final(self).gate() == old(self).gate(),
    {
        let mut responses: Vec<WireResponse> = Vec::new();
        std::mem::swap(&mut self.outbox, &mut responses);
        assert(self@.outbox =~= Seq::<WireView>::empty());
        responses
    }

    /// The frame to write for a response that was taken, or nothing where its
    /// connection is not the one of `generation`. The id of a request whose own
    /// answer is written can be used again on its connection; the refusal of a
    /// frame leaves every id as active as it was.
    pub fn release(&mut self, response: &WireResponse, generation: u64) -> (r: Option<
        Result<Vec<u8>, FrameError>,
    >)
        ensures
            final(self).gate() == old(self).gate(),
            if response.generation != generation {
                r is None && final(self)@ == old(self)@
            } else {
                let tree = crate::json::json_tree(response.body);
                &&& r is Some
                &&& match crate::json::json_bytes(tree) {
                    None => r->Some_0 == Err::<Vec<u8>, FrameError>(FrameError::Unwritable),
                    Some(text) => if text.len() > u32::MAX {
                        r->Some_0 == Err::<Vec<u8>, FrameError>(FrameError::TooLarge)
                    } else {
                        r->Some_0 is Ok && r->Some_0->Ok_0@ == length_bytes(text.len() as u32)
                            + text
                    },
                }
                &&& final(self)@ == written(old(self)@, response@)
            },
    {
        if response.generation != generation {
            return None;
        }
        if response.answers {
            let key: Option<String> = match json_get(&response.body, "id") {
                Some(id) => trackable_id(id),
                None => None,
            };
            if let Some(key) = key {
                self.forget(&key);
            }
        }
        Some(encode_frame(&response.body))
    }

    /// Makes an id usable again.
    fn forget(&mut self, key: &String)
        ensures
            final(self)@ == (TransportView {
                active: without(old(self)@.active, key@),
                ..old(self)@
            }),
            final(self).gate() == old(self).gate(),
    {
        let ghost all = self@.active;
        let ghost mut seen: int = 0;
        let mut index: usize = 0;
        assert(all.take(0) =~= Seq::<Seq<char>>::empty());
        assert(self@.active.take(0) =~= Seq::<Seq<char>>::empty());
        assert(self@.active.skip(0) =~= all.skip(0));
        while index < self.active_ids.len()
            invariant
                index <= self.active_ids.len(),
                index <= seen <= all.len(),
                self@.active.take(index as int) == without(all.take(seen), key@),
                self@.active.skip(index as int) == all.skip(seen),
                self@.inbox == old(self)@.inbox,
                self@.outbox == old(self)@.outbox,
                self@.generation == old(self)@.generation,
                self.gate() == old(self).gate(),
            decreases self.active_ids.len() - index,
        {
            let ghost before = self@.active;
            proof {
                assert(before.skip(index as int).len() == before.len() - index);
                assert(seen < all.len());
                assert(before.skip(index as int)[0] == all.skip(seen)[0]);
                assert(before[index as int] == all[seen]);
                assert(before[index as int] == self.active_ids@[index as int]@);
                assert(all.take(seen + 1).drop_last() =~= all.take(seen));
            }
            if self.active_ids[index] == *key {
                let _ = self.active_ids.remove(index);
                proof {
                    assert(self@.active =~= before.remove(index as int));
                    assert(self@.active.take(index as int) =~= before.take(index as int));
                    assert(self@.active.skip(index as int) =~= before.skip(index as int).skip(1));
                }
            } else {
                index = index + 1;
                proof {
                    assert(before.take(index as int) =~= before.take(index - 1).push(all[seen]));
                    assert(before.skip(index as int) =~= before.skip(index - 1).skip(1));
                }
            }
            proof {
                assert(all.skip(seen).skip(1) =~= all.skip(seen + 1));
                seen = seen + 1;
            }
        }
        proof {
            assert(self@.active.skip(index as int).len() == 0);
            assert(all.take(seen) =~= all);
            assert(self@.active.take(index as int) =~= self@.active);
        }
    }
}

/// What came of one read.
pub enum ReadEvent {
    /// Nothing arrived within the read timeout.
    WouldBlock,
    /// The read failed.
    Failed,
    /// These bytes arrived; none means that the peer has closed.
    Bytes(Vec<u8>),
}

/// What a connection does after one read.
#[derive(Debug, Clone, Copy, PartialEq, Eq, Structural)]
pub enum ConnectionStep {
    /// The peer has closed: end the connection.
    Close,
    /// The read failed: end the connection with that error.
    Fail,
    /// Wait a moment and read on.
    Wait,
    /// Read on; the length prefix is not complete.
    Continue,
    /// Read this many bytes as a frame body.
    ReadBody(u32),
    /// Read and forget this many bytes.
    Discard(u32),
}

/// One served connection: its generation, and as much of the length prefix of
/// the next frame as has arrived.
pub struct Connection {
    generation: u64,
    prefix: Vec<u8>,
}

impl Connection {
    pub closed spec fn generation(&self) -> u64 {
        self.generation
    }

    /// The part of the length prefix that has arrived.
    pub closed spec fn prefix(&self) -> Seq<u8> {
        self.prefix@
    }

    pub open spec fn wf(&self) -> bool {
        self.prefix().len() < 4
    }

    /// Opens a new connection.
    pub fn open(transport: &mut DebugTransport) -> (r: Self)
        requires
            old(transport)@.generation < u64::MAX,
        ensures
            r.wf(),
            r.generation() == old(transport)@.generation + 1,
            r.prefix() == Seq::<u8>::empty(),
            final(transport)@ == (TransportView {
                inbox: old(transport)@.inbox,
                outbox: of_generation(old(transport)@.outbox, r.generation()),
                active: Seq::empty(),
                generation: r.generation(),
            }),
            final(transport).gate() == old(transport).gate(),
    {
        Connection { generation: transport.begin_connection(), prefix: Vec::new() }
    }

    /// How many bytes of the length prefix are missing.
    pub fn missing(&self) -> (r: usize)
        requires
            self.wf(),
        ensures
            r == 4 - self.prefix().len(),
    {
        4 - self.prefix.len()
    }

    /// Takes what came of reading at most the missing bytes of the length
    /// prefix. A frame that is too long is answered `payload_too_large`, and
    /// its body is to be discarded so that the stream stays framed.
    pub fn after_read(&mut self, transport: &mut DebugTransport, event: ReadEvent) -> (r:
        ConnectionStep)
        requires
            old(self).wf(),
            event matches ReadEvent::Bytes(bytes) ==> bytes.len() <= 4 - old(self).prefix().len(),
        ensures
            final(self).wf(),
            final(self).generation() == old(self).generation(),
            final(transport).gate() == old(transport).gate(),
            match event {
                ReadEvent::WouldBlock => r is Wait && final(self).prefix() == old(self).prefix(),
                ReadEvent::Failed => r is Fail && final(self).prefix() == old(self).prefix(),
                ReadEvent::Bytes(bytes) => {
                    let prefix = old(self).prefix() + bytes@;
                    if bytes.len() == 0 {
                        r is Close && final(self).prefix() == old(self).prefix()
                    } else if prefix.len() < 4 {
                        r is Continue && final(self).prefix() == prefix
                    } else {
                        &&& final(self).prefix() == Seq::<u8>::empty()
                        &&& r == if length_of(prefix) > MAX_FRAME_BYTES {
                            ConnectionStep::Discard(length_of(prefix))
                        } else {
                            ConnectionStep::ReadBody(length_of(prefix))
                        }
                    }
                },
            },
            final(transport)@ == if r is Discard {
                refused(
                    old(transport)@,
                    JsonTree::Null,
                    -32000,
                    Some(DebugServerError::PayloadTooLarge.name()),
                    "frame exceeds the payload limit"@,
                    old(self).generation(),
                )
            } else {
                old(transport)@
            },
    {
        match event {
            ReadEvent::WouldBlock => ConnectionStep::Wait,
            ReadEvent::Failed => ConnectionStep::Fail,
            ReadEvent::Bytes(bytes) => {
                if bytes.len() == 0 {
                    return ConnectionStep::Close;
                }
                self.prefix.extend_from_slice(&bytes);
                assert(self.prefix@ =~= old(self).prefix() + bytes@);
                if self.prefix.len() < 4 {
                    return ConnectionStep::Continue;
                }
                let length: u32 = ((self.prefix[0] as u32) << 24) | ((self.prefix[1] as u32) << 16)
                    | ((self.prefix[2] as u32) << 8) | (self.prefix[3] as u32);
                self.prefix.clear();
                if length > MAX_FRAME_BYTES {
                    transport.refuse(
                        json_null(),
                        -32000,
                        Some(DebugServerError::PayloadTooLarge.code_name()),
                        "frame exceeds the payload limit",
                        self.generation,
                    );
                    return ConnectionStep::Discard(length);
                }
                ConnectionStep::ReadBody(length)
            },
        }
    }

    /// Takes a complete frame body.
    pub fn after_body(&self, transport: &mut DebugTransport, body: &[u8])
        ensures
            final(transport)@ == frame_handled(
                old(transport)@,
                crate::json::json_parse(body@),
                self.generation(),
            ),
            final(transport).gate() == old(transport).gate(),
    {
        transport.handle_frame(body, self.generation);
    }
}

/// How much to read next while discarding `remaining` bytes.
pub fn discard_chunk(remaining: u64) -> (r: usize)
    ensures
        r == if remaining < 4096 {
            remaining as int
        } else {
            4096
        },
{
    if remaining < 4096 {
        remaining as usize
    } else {
        4096
    }
}

} // verus!
