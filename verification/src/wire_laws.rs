//! What holds of what the debug control plane reads and writes.

use serde_json::Value;
use vstd::prelude::*;

use crate::debug_transport::{
    discard_chunk, encode_frame, frame_text, Connection, ConnectionStep, DebugTransport,
    FrameError, ReadEvent, RequestView, TransportView, WireRequest, WireResponse,
};
use crate::gate::GateReader;
use crate::json::JsonTree;

verus! {

// ---------------------------------------------------------------------------
// Bodies
// ---------------------------------------------------------------------------

/// The names of members are different names.
proof fn lemma_names()
    ensures
        "jsonrpc"@ != "id"@ && "jsonrpc"@ != "result"@ && "jsonrpc"@ != "error"@,
        "id"@ != "result"@ && "id"@ != "error"@ && "result"@ != "error"@,
        "code"@ != "data"@ && "code"@ != "message"@ && "data"@ != "message"@,
{
    reveal_strlit("jsonrpc");
    reveal_strlit("id");
    reveal_strlit("result");
    reveal_strlit("error");
    reveal_strlit("code");
    reveal_strlit("data");
    reveal_strlit("message");
    assert("jsonrpc"@.len() == 7 && "id"@.len() == 2 && "result"@.len() == 6 && "error"@.len() == 5);
    assert("code"@.len() == 4 && "data"@.len() == 4 && "message"@.len() == 7);
    assert("code"@[0] != "data"@[0]);
}

/// `tree` is an object with these members and no others.
pub open spec fn is_object_of(tree: JsonTree, members: Map<Seq<char>, JsonTree>) -> bool {
    tree is Table && tree->Table_0 == members
}

/// `body` is a successful reply: version, id and result, and nothing else.
pub open spec fn is_result_reply(body: JsonTree, id: JsonTree, result: JsonTree) -> bool {
    is_object_of(
        body,
        map!["jsonrpc"@ => JsonTree::Text("2.0"@), "id"@ => id, "result"@ => result],
    )
}

/// `body` is a failed reply: version, id and error, and nothing else. A server
/// error holds its number, and its name and message as data; any other error
/// holds its number and its message.
pub open spec fn is_error_reply(
    body: JsonTree,
    id: JsonTree,
    code: int,
    name: Option<Seq<char>>,
    message: Seq<char>,
) -> bool {
    &&& body is Table
    &&& body->Table_0.dom() == set!["jsonrpc"@, "id"@, "error"@]
    &&& body->Table_0["jsonrpc"@] == JsonTree::Text("2.0"@)
    &&& body->Table_0["id"@] == id
    &&& match name {
        Some(name) => {
            let error = body->Table_0["error"@];
            &&& error is Table
            &&& error->Table_0.dom() == set!["code"@, "data"@]
            &&& error->Table_0["code"@] == JsonTree::Integer(code)
            &&& is_object_of(
                error->Table_0["data"@],
                map!["code"@ => JsonTree::Text(name), "message"@ => JsonTree::Text(message)],
            )
        },
        None => is_object_of(
            body->Table_0["error"@],
            map!["code"@ => JsonTree::Integer(code), "message"@ => JsonTree::Text(message)],
        ),
    }
}

/// The body of a successful response is a successful reply.
pub proof fn lemma_ok_body(id: JsonTree, result: JsonTree)
    ensures
        is_result_reply(crate::debug_transport::ok_body(id, result), id, result),
{
    lemma_names();
    let body = crate::debug_transport::ok_body(id, result);
    assert(body->Table_0 =~= map![
        "jsonrpc"@ => JsonTree::Text("2.0"@),
        "id"@ => id,
        "result"@ => result,
    ]);
}

/// The body of a failed response is a failed reply.
pub proof fn lemma_error_body(
    id: JsonTree,
    code: int,
    name: Option<Seq<char>>,
    message: Seq<char>,
)
    ensures
        is_error_reply(
            crate::debug_transport::error_body(id, code, name, message),
            id,
            code,
            name,
            message,
        ),
{
    lemma_names();
    let body = crate::debug_transport::error_body(id, code, name, message);
    assert(body->Table_0.dom() =~= set!["jsonrpc"@, "id"@, "error"@]);
    let error = body->Table_0["error"@];
    match name {
        Some(name) => {
            assert(error->Table_0.dom() =~= set!["code"@, "data"@]);
            assert(error->Table_0["data"@]->Table_0 =~= map![
                "code"@ => JsonTree::Text(name),
                "message"@ => JsonTree::Text(message),
            ]);
        },
        None => {
            assert(error->Table_0 =~= map![
                "code"@ => JsonTree::Integer(code),
                "message"@ => JsonTree::Text(message),
            ]);
        },
    }
}

/// The outbox got one more response, behind what it held, or nothing where 256
/// already wait: nothing that waits is ever pushed out.
pub open spec fn one_more_waits(
    before: TransportView,
    after: TransportView,
    body: spec_fn(JsonTree) -> bool,
    generation: u64,
    answers: bool,
) -> bool {
    if before.outbox.len() >= 256 {
        after.outbox == before.outbox
    } else {
        &&& after.outbox.len() == before.outbox.len() + 1
        &&& forall|i: int| 0 <= i < before.outbox.len() ==> after.outbox[i] == #[trigger] before.outbox[i]
        &&& body(after.outbox.last().body)
        &&& after.outbox.last().generation == generation
        &&& after.outbox.last().answers == answers
    }
}

/// Nothing but the outbox has changed.
pub open spec fn only_outbox_changed(before: TransportView, after: TransportView) -> bool {
    after.inbox == before.inbox && after.active == before.active && after.generation
        == before.generation
}

/// A successful response carries the id and the result it was given, and no
/// error; it waits behind the others, for its connection.
pub proof fn result_is_written_for_its_request(
    transport: &mut DebugTransport,
    id: Value,
    result: Value,
    generation: u64,
)
    requires
        call_ensures(DebugTransport::respond_ok, (transport, id, result, generation), ()),
    ensures
        only_outbox_changed(old(transport)@, final(transport)@),
        one_more_waits(
            old(transport)@,
            final(transport)@,
            |body: JsonTree|
                is_result_reply(
                    body,
                    crate::json::json_tree(id),
                    crate::json::json_tree(result),
                ),
            generation,
            true,
        ),
{
    lemma_ok_body(crate::json::json_tree(id), crate::json::json_tree(result));
}

/// A failed response carries the id, number, name and message it was given,
/// and no result; it waits behind the others, for its connection.
pub proof fn error_is_written_for_its_request(
    transport: &mut DebugTransport,
    id: Value,
    code: i64,
    name: Option<&str>,
    message: &str,
    generation: u64,
)
    requires
        call_ensures(
            DebugTransport::respond_error,
            (transport, id, code, name, message, generation),
            (),
        ),
    ensures
        only_outbox_changed(old(transport)@, final(transport)@),
        one_more_waits(
            old(transport)@,
            final(transport)@,
            |body: JsonTree|
                is_error_reply(
                    body,
                    crate::json::json_tree(id),
                    code as int,
                    match name {
                        Some(name) => Some(name@),
                        None => None,
                    },
                    message@,
                ),
            generation,
            true,
        ),
{
    lemma_error_body(
        crate::json::json_tree(id),
        code as int,
        match name {
            Some(name) => Some(name@),
            None => None,
        },
        message@,
    );
}

/// A body that is handed over as it is waits as it is.
pub proof fn body_is_written_as_it_is(
    transport: &mut DebugTransport,
    body: Value,
    generation: u64,
)
    requires
        call_ensures(DebugTransport::push_response, (transport, body, generation), ()),
    ensures
        only_outbox_changed(old(transport)@, final(transport)@),
        one_more_waits(
            old(transport)@,
            final(transport)@,
            |written: JsonTree| written == crate::json::json_tree(body),
            generation,
            true,
        ),
{
}

// ---------------------------------------------------------------------------
// Requests
// ---------------------------------------------------------------------------

/// The member `key` of the object `tree`.
pub open spec fn has(tree: JsonTree, key: Seq<char>) -> bool {
    tree is Table && tree->Table_0.dom().contains(key)
}

/// `tree` is a request of JSON-RPC 2.0: an object that says so, names a method
/// and has an id.
pub open spec fn is_request(tree: JsonTree) -> bool {
    &&& has(tree, "jsonrpc"@) && tree->Table_0["jsonrpc"@] == JsonTree::Text("2.0"@)
    &&& has(tree, "method"@) && tree->Table_0["method"@] is Text
    &&& has(tree, "id"@)
}

/// The frame was refused with this error: that is all that happened, and the
/// refusal answers no request.
pub open spec fn refused_with(
    before: TransportView,
    after: TransportView,
    id: JsonTree,
    code: int,
    message: Seq<char>,
    generation: u64,
) -> bool {
    &&& only_outbox_changed(before, after)
    &&& one_more_waits(
        before,
        after,
        |body: JsonTree| is_error_reply(body, id, code, None, message),
        generation,
        false,
    )
}

/// What becomes of a request. An id that is already active is refused; a
/// request beyond the 128 that may wait is answered `queue_full`; any other
/// waits as it came, behind those before it. From then on its id is active,
/// unless it is null.
pub open spec fn request_taken(
    before: TransportView,
    after: TransportView,
    key: Option<Seq<char>>,
    request: RequestView,
) -> bool {
    if key is Some && before.active.contains(key->Some_0) {
        refused_with(
            before,
            after,
            request.id,
            -32600,
            "duplicate active id"@,
            request.generation,
        )
    } else {
        &&& after.generation == before.generation
        &&& after.active == match key {
            Some(key) => before.active.push(key),
            None => before.active,
        }
        &&& if before.inbox.len() >= 128 {
            &&& after.inbox == before.inbox
            &&& one_more_waits(
                before,
                after,
                |body: JsonTree|
                    is_error_reply(
                        body,
                        request.id,
                        -32000,
                        Some("queue_full"@),
                        "transport inbox capacity reached"@,
                    ),
                request.generation,
                true,
            )
        } else {
            &&& after.inbox == before.inbox.push(request)
            &&& after.outbox == before.outbox
        }
    }
}

/// What becomes of a frame. A request is taken, with its own id, method and
/// params, null params where it has none. Anything else is refused: a body
/// that is no JSON with a parse error, a list as a batch, a request without an
/// id as a notification, and all else as invalid.
pub open spec fn frame_taken(
    before: TransportView,
    after: TransportView,
    parsed: Option<JsonTree>,
    generation: u64,
) -> bool {
    match parsed {
        None => refused_with(
            before,
            after,
            JsonTree::Null,
            -32700,
            "parse error"@,
            generation,
        ),
        Some(tree) => if is_request(tree) {
            let id = tree->Table_0["id"@];
            request_taken(
                before,
                after,
                if id is Null {
                    None
                } else {
                    crate::json::json_text(id)
                },
                RequestView {
                    id,
                    method: tree->Table_0["method"@]->Text_0,
                    params: if has(tree, "params"@) {
                        tree->Table_0["params"@]
                    } else {
                        JsonTree::Null
                    },
                    generation,
                },
            )
        } else {
            let versioned = has(tree, "jsonrpc"@) && tree->Table_0["jsonrpc"@] == JsonTree::Text(
                "2.0"@,
            );
            let named = has(tree, "method"@) && tree->Table_0["method"@] is Text;
            refused_with(
                before,
                after,
                if !versioned && has(tree, "id"@) {
                    tree->Table_0["id"@]
                } else {
                    JsonTree::Null
                },
                -32600,
                if tree is List {
                    "batch not supported"@
                } else if versioned && named {
                    "notifications not supported"@
                } else {
                    "invalid request"@
                },
                generation,
            )
        },
    }
}

proof fn lemma_refused(
    before: TransportView,
    id: JsonTree,
    code: int,
    message: Seq<char>,
    generation: u64,
)
    ensures
        refused_with(
            before,
            crate::debug_transport::refused(before, id, code, None, message, generation),
            id,
            code,
            message,
            generation,
        ),
{
    lemma_error_body(id, code, None, message);
}

proof fn lemma_admitted(before: TransportView, key: Option<Seq<char>>, request: RequestView)
    ensures
        request_taken(
            before,
            crate::debug_transport::admitted(before, key, request),
            key,
            request,
        ),
{
    lemma_refused(before, request.id, -32600, "duplicate active id"@, request.generation);
    lemma_error_body(
        request.id,
        -32000,
        Some("queue_full"@),
        "transport inbox capacity reached"@,
    );
}

proof fn lemma_frame(before: TransportView, parsed: Option<JsonTree>, generation: u64)
    ensures
        frame_taken(
            before,
            crate::debug_transport::frame_handled(before, parsed, generation),
            parsed,
            generation,
        ),
{
    match parsed {
        None => {
            lemma_refused(before, JsonTree::Null, -32700, "parse error"@, generation);
        },
        Some(tree) => {
            let id = crate::debug_transport::member_or_null(tree, "id"@);
            lemma_refused(before, JsonTree::Null, -32600, "batch not supported"@, generation);
            lemma_refused(before, JsonTree::Null, -32600, "invalid request"@, generation);
            lemma_refused(before, id, -32600, "invalid request"@, generation);
            lemma_refused(
                before,
                JsonTree::Null,
                -32600,
                "notifications not supported"@,
                generation,
            );
            if is_request(tree) {
                lemma_admitted(
                    before,
                    crate::debug_transport::tracked_key(id),
                    RequestView {
                        id,
                        method: tree->Table_0["method"@]->Text_0,
                        params: crate::debug_transport::member_or_null(tree, "params"@),
                        generation,
                    },
                );
            }
        },
    }
}

/// A value that a frame was read as is taken as JSON-RPC says.
pub proof fn value_is_taken_as_json_rpc(
    transport: &mut DebugTransport,
    parsed: Option<Value>,
    generation: u64,
)
    requires
        call_ensures(DebugTransport::handle_value, (transport, parsed, generation), ()),
    ensures
        frame_taken(
            old(transport)@,
            final(transport)@,
            match parsed {
                Some(value) => Some(crate::json::json_tree(value)),
                None => None,
            },
            generation,
        ),
{
    lemma_frame(
        old(transport)@,
        match parsed {
            Some(value) => Some(crate::json::json_tree(value)),
            None => None,
        },
        generation,
    );
}

/// A frame is taken as what its bytes are read as.
pub proof fn frame_is_taken_as_json_rpc(
    transport: &mut DebugTransport,
    bytes: &[u8],
    generation: u64,
)
    requires
        call_ensures(DebugTransport::handle_frame, (transport, bytes, generation), ()),
    ensures
        frame_taken(
            old(transport)@,
            final(transport)@,
            crate::json::json_parse(bytes@),
            generation,
        ),
{
    lemma_frame(old(transport)@, crate::json::json_parse(bytes@), generation);
}

/// The body of a frame is taken for the connection that it came over.
pub proof fn body_is_taken_for_its_connection(
    connection: &Connection,
    transport: &mut DebugTransport,
    body: &[u8],
)
    requires
        call_ensures(Connection::after_body, (connection, transport, body), ()),
    ensures
        frame_taken(
            old(transport)@,
            final(transport)@,
            crate::json::json_parse(body@),
            connection.generation(),
        ),
{
    lemma_frame(old(transport)@, crate::json::json_parse(body@), connection.generation());
}

/// A request is taken under the key that it is given.
pub proof fn request_is_taken_once(
    transport: &mut DebugTransport,
    key: Option<String>,
    request: WireRequest,
)
    requires
        call_ensures(DebugTransport::take_request, (transport, key, request), ()),
    ensures
        request_taken(
            old(transport)@,
            final(transport)@,
            match key {
                Some(key) => Some(key@),
                None => None,
            },
            RequestView {
                id: crate::json::json_tree(request.id),
                method: request.method@,
                params: crate::json::json_tree(request.params),
                generation: request.generation,
            },
        ),
{
    lemma_admitted(
        old(transport)@,
        match key {
            Some(key) => Some(key@),
            None => None,
        },
        request@,
    );
}

// ---------------------------------------------------------------------------
// Connections
// ---------------------------------------------------------------------------

/// What is kept of an outbox is what belongs to the connection, in order.
proof fn lemma_of_generation(outbox: Seq<crate::debug_transport::WireView>, generation: u64)
    ensures
        crate::debug_transport::of_generation(outbox, generation) == outbox.filter(
            |response: crate::debug_transport::WireView| response.generation == generation,
        ),
    decreases outbox.len(),
{
    reveal(Seq::filter);
    if outbox.len() > 0 {
        lemma_of_generation(outbox.drop_last(), generation);
    }
}

/// What is left of the active ids is all but the one that was freed, in order.
proof fn lemma_without(ids: Seq<Seq<char>>, key: Seq<char>)
    ensures
        crate::debug_transport::without(ids, key) == ids.filter(|id: Seq<char>| id != key),
    decreases ids.len(),
{
    reveal(Seq::filter);
    if ids.len() > 0 {
        lemma_without(ids.drop_last(), key);
    }
}

/// Every connection has a number of its own, one above the one before it. It
/// starts with no active id and with no response of another connection;
/// requests that wait stay.
pub proof fn connections_are_numbered(transport: &mut DebugTransport, r: u64)
    requires
        call_ensures(DebugTransport::begin_connection, (transport,), r),
    ensures
        r == old(transport)@.generation + 1,
        final(transport)@.generation == r,
        final(transport)@.active.len() == 0,
        final(transport)@.inbox == old(transport)@.inbox,
        final(transport)@.outbox == old(transport)@.outbox.filter(
            |response: crate::debug_transport::WireView| response.generation == r,
        ),
{
    lemma_of_generation(old(transport)@.outbox, r);
}

/// An opened connection is the one that the transport now serves, and has read
/// nothing yet.
pub proof fn opened_connection_is_current(transport: &mut DebugTransport, r: Connection)
    requires
        call_ensures(Connection::open, (transport,), r),
    ensures
        r.generation() == old(transport)@.generation + 1,
        final(transport)@.generation == r.generation(),
        final(transport)@.active.len() == 0,
        final(transport)@.inbox == old(transport)@.inbox,
        final(transport)@.outbox == old(transport)@.outbox.filter(
            |response: crate::debug_transport::WireView|
                response.generation == r.generation(),
        ),
        r.prefix().len() == 0,
{
    lemma_of_generation(old(transport)@.outbox, r.generation());
}

/// What waits is taken once and in order, and nothing else is touched.
pub proof fn waiting_is_taken_in_order(
    transport: &mut DebugTransport,
    requests: Vec<WireRequest>,
    other: &mut DebugTransport,
    responses: Vec<WireResponse>,
)
    requires
        call_ensures(DebugTransport::take_requests, (transport,), requests),
        call_ensures(DebugTransport::take_responses, (other,), responses),
    ensures
        requests.len() == old(transport)@.inbox.len(),
        forall|i: int|
            0 <= i < requests.len() ==> (#[trigger] requests@[i])@ == old(transport)@.inbox[i],
        final(transport)@.inbox.len() == 0,
        final(transport)@.outbox == old(transport)@.outbox,
        final(transport)@.active == old(transport)@.active,
        final(transport)@.generation == old(transport)@.generation,
        responses.len() == old(other)@.outbox.len(),
        forall|i: int|
            0 <= i < responses.len() ==> (#[trigger] responses@[i])@ == old(other)@.outbox[i],
        final(other)@.outbox.len() == 0,
        only_outbox_changed(old(other)@, final(other)@),
{
    let views = requests@.map_values(|request: WireRequest| request@);
    assert forall|i: int| 0 <= i < requests.len() implies (#[trigger] requests@[i])@ == old(transport)@.inbox[i] by {
        assert(views[i] == requests@[i]@);
    }
    let written = responses@.map_values(|response: WireResponse| response@);
    assert forall|i: int| 0 <= i < responses.len() implies (#[trigger] responses@[i])@ == old(other)@.outbox[i] by {
        assert(written[i] == responses@[i]@);
    }
}

/// The number that four bytes spell, the highest first.
pub open spec fn big_endian(bytes: Seq<u8>) -> int {
    0x100_0000 * bytes[0] + 0x1_0000 * bytes[1] + 0x100 * bytes[2] + bytes[3]
}

/// Bytes and numbers, both ways.
proof fn lemma_big_endian(length: u32, bytes: Seq<u8>)
    ensures
        big_endian(crate::debug_transport::length_bytes(length)) == length,
        bytes.len() == 4 ==> crate::debug_transport::length_of(bytes) == big_endian(bytes),
{
    let (a, b, c, d) = (bytes[0], bytes[1], bytes[2], bytes[3]);
    assert((((length >> 24) & 0xFF) as u8) * 0x100_0000 + (((length >> 16) & 0xFF) as u8) * 0x1_0000
        + (((length >> 8) & 0xFF) as u8) * 0x100 + ((length & 0xFF) as u8) == length && ((a as u32)
        << 24) | ((b as u32) << 16) | ((c as u32) << 8) | (d as u32) == a * 0x100_0000 + b * 0x1_0000
        + c * 0x100 + d) by (bit_vector);
}

/// `frame` is the frame of `text`: four bytes that spell its length, and the
/// text itself.
pub open spec fn is_frame_of(frame: Seq<u8>, text: Seq<u8>) -> bool {
    &&& frame.len() == 4 + text.len()
    &&& big_endian(frame.take(4)) == text.len()
    &&& frame.skip(4) == text
}

proof fn lemma_frame_of(text: Seq<u8>)
    requires
        text.len() <= u32::MAX,
    ensures
        is_frame_of(crate::debug_transport::length_bytes(text.len() as u32) + text, text),
{
    let length = crate::debug_transport::length_bytes(text.len() as u32);
    lemma_big_endian(text.len() as u32, length);
    assert((length + text).take(4) =~= length);
    assert((length + text).skip(4) =~= text);
}

/// A text is framed exactly where four bytes can spell its length.
pub proof fn frame_spells_its_length(text: &[u8], r: Result<Vec<u8>, FrameError>)
    requires
        call_ensures(frame_text, (text,), r),
    ensures
        r is Ok <==> text.len() < 0x1_0000_0000,
        r matches Ok(frame) ==> is_frame_of(frame@, text@),
        r matches Err(error) ==> error == FrameError::TooLarge,
{
    if text@.len() <= u32::MAX {
        lemma_frame_of(text@);
    }
}

/// A body is framed as the text that it is written as.
pub proof fn frame_holds_its_body(body: &Value, r: Result<Vec<u8>, FrameError>)
    requires
        call_ensures(encode_frame, (body,), r),
    ensures
        ({
            let text = crate::json::json_bytes(crate::json::json_tree(*body));
            &&& r is Ok <==> text is Some && text->Some_0.len() < 0x1_0000_0000
            &&& r matches Ok(frame) ==> is_frame_of(frame@, text->Some_0)
            &&& r == Err::<Vec<u8>, FrameError>(FrameError::Unwritable) <==> text is None
        }),
{
    if let Some(text) = crate::json::json_bytes(crate::json::json_tree(*body)) {
        if text.len() <= u32::MAX {
            lemma_frame_of(text);
        }
    }
}

/// A response is written only for the connection that it was made for, as the
/// frame of its body. The answer to a request makes the id that it bears free
/// again and no other one; a refusal frees none.
pub proof fn written_answer_frees_its_id(
    transport: &mut DebugTransport,
    response: &WireResponse,
    generation: u64,
    r: Option<Result<Vec<u8>, FrameError>>,
)
    requires
        call_ensures(DebugTransport::release, (transport, response, generation), r),
    ensures
        r is Some <==> response.generation == generation,
        r is None ==> final(transport)@ == old(transport)@,
        r matches Some(Ok(frame)) ==> {
            let text = crate::json::json_bytes(crate::json::json_tree(response.body));
            text is Some && is_frame_of(frame@, text->Some_0)
        },
        r == Some(Err::<Vec<u8>, FrameError>(FrameError::Unwritable)) ==> crate::json::json_bytes(
            crate::json::json_tree(response.body),
        ) is None,
        r == Some(Err::<Vec<u8>, FrameError>(FrameError::TooLarge)) ==> {
            let text = crate::json::json_bytes(crate::json::json_tree(response.body));
            text is Some && text->Some_0.len() >= 0x1_0000_0000
        },
        final(transport)@.inbox == old(transport)@.inbox,
        final(transport)@.outbox == old(transport)@.outbox,
        final(transport)@.generation == old(transport)@.generation,
        ({
            let tree = crate::json::json_tree(response.body);
            let id = tree->Table_0["id"@];
            let freed = response.generation == generation && response.answers && has(tree, "id"@)
                && id !is Null && crate::json::json_text(id) is Some;
            final(transport)@.active == if freed {
                old(transport)@.active.filter(
                    |active: Seq<char>| active != crate::json::json_text(id)->Some_0,
                )
            } else {
                old(transport)@.active
            }
        }),
{
    let tree = crate::json::json_tree(response.body);
    if let Some(text) = crate::json::json_bytes(tree) {
        if text.len() <= u32::MAX {
            lemma_frame_of(text);
        }
    }
    let id = tree->Table_0["id"@];
    if let Some(key) = crate::json::json_text(id) {
        lemma_without(old(transport)@.active, key);
        let kept = |active: Seq<char>| active != key;
        let same = |active: Seq<char>| active != crate::json::json_text(id)->Some_0;
        assert(kept =~= same);
    }
}

/// Reading a length. Bytes of it are put behind those that had come; once four
/// have, they spell the length of the body that is read next, or of one to be
/// discarded where it is above 1 MiB, which is then answered. Nothing is
/// answered before that, and the end or failure of the stream ends the
/// connection.
pub proof fn length_prefix_is_read(
    connection: &mut Connection,
    transport: &mut DebugTransport,
    event: ReadEvent,
    r: ConnectionStep,
)
    requires
        call_ensures(Connection::after_read, (connection, transport, event), r),
        old(connection).prefix().len() < 4,
        event matches ReadEvent::Bytes(bytes) ==> old(connection).prefix().len() + bytes.len() <= 4,
    ensures
        final(connection).generation() == old(connection).generation(),
        event is WouldBlock <==> r == ConnectionStep::Wait,
        event is Failed <==> r == ConnectionStep::Fail,
        event matches ReadEvent::Bytes(bytes) ==> {
            let read = old(connection).prefix() + bytes@;
            &&& bytes.len() == 0 <==> r == ConnectionStep::Close
            &&& 0 < bytes.len() && read.len() < 4 <==> r == ConnectionStep::Continue
            &&& 0 < bytes.len() && read.len() == 4 ==> r == if big_endian(read) <= 1024 * 1024 {
                ConnectionStep::ReadBody(big_endian(read) as u32)
            } else {
                ConnectionStep::Discard(big_endian(read) as u32)
            }
            &&& final(connection).prefix() == if read.len() < 4 {
                read
            } else {
                Seq::<u8>::empty()
            }
        },
        !(event is Bytes) ==> final(connection).prefix() == old(connection).prefix(),
        !(r is Discard) ==> final(transport)@ == old(transport)@,
        r is Discard ==> only_outbox_changed(old(transport)@, final(transport)@)
            && one_more_waits(
            old(transport)@,
            final(transport)@,
            |body: JsonTree|
                is_error_reply(
                    body,
                    JsonTree::Null,
                    -32000,
                    Some("payload_too_large"@),
                    "frame exceeds the payload limit"@,
                ),
            old(connection).generation(),
            false,
        ),
{
    if let ReadEvent::Bytes(bytes) = event {
        let read = old(connection).prefix() + bytes@;
        lemma_big_endian(0, read);
        assert(bytes.len() == 0 ==> read =~= old(connection).prefix());
    }
    lemma_error_body(
        JsonTree::Null,
        -32000,
        Some("payload_too_large"@),
        "frame exceeds the payload limit"@,
    );
}

/// What is read and forgotten at a time never passes the end of the body, is
/// never nothing while some of it is left, and is at most a page.
pub proof fn discarding_ends_with_the_body(remaining: u64, r: usize)
    requires
        call_ensures(discard_chunk, (remaining,), r),
    ensures
        r <= remaining,
        r <= 4096,
        r == remaining || r == 4096,
{
}

/// Each connection has a number of its own, one more than the one before, and a
/// transport keeps its runtime gate.
pub proof fn generations_only_grow(
    transport: &mut DebugTransport,
    before: u64,
    next: u64,
    now: u64,
    gate: GateReader,
    later: GateReader,
)
    requires
        old(transport)@.generation < u64::MAX,
        call_ensures(DebugTransport::current_generation, (&*old(transport),), before),
        call_ensures(DebugTransport::runtime_gate, (&*old(transport),), gate),
        call_ensures(DebugTransport::next_generation, (transport,), next),
        call_ensures(DebugTransport::current_generation, (&*final(transport),), now),
        call_ensures(DebugTransport::runtime_gate, (&*final(transport),), later),
    ensures
        next == before + 1,
        now == next,
        later == gate,
        final(transport)@.inbox == old(transport)@.inbox,
        final(transport)@.outbox == old(transport)@.outbox,
        final(transport)@.active == old(transport)@.active,
{
}

/// What is read of a length prefix and what is missing of it are four bytes.
pub proof fn prefix_has_four_bytes(connection: &Connection, r: usize)
    requires
        connection.wf(),
        call_ensures(Connection::missing, (connection,), r),
    ensures
        r + connection.prefix().len() == 4,
{
}

} // verus!
