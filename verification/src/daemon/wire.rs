//! The wire form of responses.  The framing — braces, field names, commas,
//! string escaping, decimal codes — is built and verified here character by
//! character; only the rendering of embedded dynamic JSON values is delegated
//! to `serde_json` and spoken of through its named rendering.  That rendering
//! cannot fail for a `Value`, so every serializer here is total: the transport
//! always has something to send.

use crate::daemon::jsonrpc::{RpcError, RpcResponse};
use crate::jsonvalue::{value_text, value_to_text};
use crate::text::{append_escaped, append_i64, escaped_text, int_text};
use vstd::prelude::*;

verus! {

/// The JSON text of an error object: code, fixed message, optional data.
pub open spec fn error_json(e: RpcError) -> Seq<char> {
    "{\"code\":"@ + int_text(e.code as int) + ",\"message\":\""@ + escaped_text(e.message@)
        + "\""@ + (if e.data is Some {
        ",\"data\":"@ + value_text(e.data->Some_0)
    } else {
        Seq::<char>::empty()
    }) + "}"@
}

/// The JSON text of a response object: the protocol version, then whichever of
/// result and error is present, then the id, with JSON null for an absent id.
pub open spec fn response_json(r: RpcResponse) -> Seq<char> {
    "{\"jsonrpc\":\""@ + escaped_text(r.jsonrpc@) + "\""@ + (if r.result is Some {
        ",\"result\":"@ + value_text(r.result->Some_0)
    } else {
        Seq::<char>::empty()
    }) + (if r.error is Some {
        ",\"error\":"@ + error_json(r.error->Some_0)
    } else {
        Seq::<char>::empty()
    }) + ",\"id\":"@ + (match r.id {
        Some(v) => value_text(v),
        None => "null"@,
    }) + "}"@
}

/// The later elements of a serialized batch, each preceded by a comma.
pub open spec fn batch_tail_json(rs: Seq<RpcResponse>) -> Seq<char>
    decreases rs.len(),
{
    if rs.len() == 0 {
        Seq::<char>::empty()
    } else {
        ","@ + response_json(rs[0]) + batch_tail_json(rs.subrange(1, rs.len() as int))
    }
}

/// The JSON text of a non-empty batch of responses, in order.
pub open spec fn batch_json(rs: Seq<RpcResponse>) -> Seq<char>
    recommends
        rs.len() > 0,
{
    "["@ + response_json(rs[0]) + batch_tail_json(rs.subrange(1, rs.len() as int)) + "]"@
}

/// A non-empty dispatcher result is either one well-formed response or a
/// non-empty batch of well-formed responses, serialized.
pub open spec fn spec_dispatch_output(t: Seq<char>) -> bool {
    ||| (exists|resp: RpcResponse| resp.spec_well_formed() && t == response_json(resp))
    ||| (exists|resps: Seq<RpcResponse>|
        resps.len() > 0 && (forall|i: int|
            0 <= i < resps.len() ==> (#[trigger] resps[i]).spec_well_formed()) && t == batch_json(
            resps,
        ))
}

/// The exact wire text of an error-only response under the fixed protocol
/// version: the given code and message, an optional data string rendered as a
/// JSON string literal, and a null id.  This is the shape of every response
/// the engine sends when a call fails before any request id is known.
pub open spec fn spec_plain_error_response(
    code: int,
    message: Seq<char>,
    data: Option<Seq<char>>,
) -> Seq<char> {
    "{\"jsonrpc\":\""@ + escaped_text("2.0"@) + "\""@ + ",\"error\":"@ + ("{\"code\":"@ + int_text(
        code,
    ) + ",\"message\":\""@ + escaped_text(message) + "\""@ + (match data {
        Some(d) => ",\"data\":"@ + ("\""@ + escaped_text(d) + "\""@),
        None => Seq::<char>::empty(),
    }) + "}"@) + ",\"id\":"@ + "null"@ + "}"@
}

/// An error-only response whose fields carry the given code, message and data
/// text serializes to exactly `spec_plain_error_response` of them.
pub proof fn lemma_plain_error_response(
    resp: RpcResponse,
    code: int,
    message: Seq<char>,
    data: Option<Seq<char>>,
)
    requires
        resp.jsonrpc@ == "2.0"@,
        resp.result is None,
        resp.id is None,
        resp.error matches Some(e) ==> ({
            &&& e.code as int == code
            &&& e.message@ == message
            &&& match data {
                None => e.data is None,
                Some(d) => (e.data matches Some(x) && value_text(x) == "\""@ + escaped_text(d)
                    + "\""@),
            }
        }),
        resp.error is Some,
    ensures
        response_json(resp) == spec_plain_error_response(code, message, data),
{
    assert(response_json(resp) =~= spec_plain_error_response(code, message, data));
}

/// A serialized response is never the empty string.
pub proof fn lemma_response_json_nonempty(r: RpcResponse)
    ensures
        response_json(r).len() > 0,
{
    reveal_strlit("{\"jsonrpc\":\"");
}

/// A serialized batch is never the empty string.
pub proof fn lemma_batch_json_nonempty(rs: Seq<RpcResponse>)
    ensures
        batch_json(rs).len() > 0,
{
    reveal_strlit("[");
}

/// An error-only response text is never the empty string.
pub proof fn lemma_plain_error_response_nonempty(
    code: int,
    message: Seq<char>,
    data: Option<Seq<char>>,
)
    ensures
        spec_plain_error_response(code, message, data).len() > 0,
{
    reveal_strlit("{\"jsonrpc\":\"");
}

proof fn lemma_batch_tail_push(rs: Seq<RpcResponse>, r: RpcResponse)
    ensures
        batch_tail_json(rs.push(r)) == batch_tail_json(rs) + ","@ + response_json(r),
    decreases rs.len(),
{
    if rs.len() == 0 {
        reveal_with_fuel(batch_tail_json, 2);
        assert(rs.push(r)[0] == r);
        assert(rs.push(r).subrange(1, 1) =~= Seq::<RpcResponse>::empty());
        assert(batch_tail_json(rs.push(r)) =~= batch_tail_json(rs) + ","@ + response_json(r));
    } else {
        assert(rs.push(r).subrange(1, rs.len() as int + 1) =~= rs.subrange(
            1,
            rs.len() as int,
        ).push(r));
        lemma_batch_tail_push(rs.subrange(1, rs.len() as int), r);
        assert(batch_tail_json(rs.push(r)) =~= batch_tail_json(rs) + ","@ + response_json(r));
    }
}

/// Serializes an error object; the rendering of any attached data cannot
/// fail, so neither can this.
pub(crate) fn error_to_json(e: &RpcError) -> (r: String)
    ensures
        r@ == error_json(*e),
{
    let mut out = String::new();
    out.append("{\"code\":");
    append_i64(&mut out, e.code);
    out.append(",\"message\":\"");
    append_escaped(&mut out, e.message.as_str());
    out.append("\"");
    match &e.data {
        Some(d) => {
            let t = value_to_text(d).unwrap();
            out.append(",\"data\":");
            out.append(t.as_str());
        },
        None => {},
    }
    out.append("}");
    proof {
        assert(out@ =~= error_json(*e));
    }
    out
}

/// Serializes one response, totally.
pub fn response_to_json(r: &RpcResponse) -> (out: String)
    ensures
        out@ == response_json(*r),
{
    let mut text = String::new();
    text.append("{\"jsonrpc\":\"");
    append_escaped(&mut text, r.jsonrpc.as_str());
    text.append("\"");
    match &r.result {
        Some(v) => {
            let t = value_to_text(v).unwrap();
            text.append(",\"result\":");
            text.append(t.as_str());
        },
        None => {},
    }
    match &r.error {
        Some(e) => {
            let t = error_to_json(e);
            text.append(",\"error\":");
            text.append(t.as_str());
        },
        None => {},
    }
    text.append(",\"id\":");
    match &r.id {
        Some(v) => {
            let t = value_to_text(v).unwrap();
            text.append(t.as_str());
        },
        None => {
            text.append("null");
        },
    }
    text.append("}");
    proof {
        assert(text@ =~= response_json(*r));
    }
    text
}

/// Serializes a non-empty batch of responses as a bare JSON array, in order,
/// totally.
pub fn batch_to_json(rs: &Vec<RpcResponse>) -> (out: String)
    requires
        rs@.len() > 0,
    ensures
        out@ == batch_json(rs@),
{
    let mut text = String::new();
    text.append("[");
    let first = response_to_json(&rs[0]);
    text.append(first.as_str());
    let mut i: usize = 1;
    let ghost head = "["@ + response_json(rs@[0]);
    while i < rs.len()
        invariant
            1 <= i <= rs@.len(),
            text@ == head + batch_tail_json(rs@.subrange(1, i as int)),
        decreases rs@.len() - i,
    {
        let item = response_to_json(&rs[i]);
        text.append(",");
        text.append(item.as_str());
        proof {
            assert(rs@.subrange(1, i as int).push(rs@[i as int]) =~= rs@.subrange(1, i + 1 as int));
            lemma_batch_tail_push(rs@.subrange(1, i as int), rs@[i as int]);
            assert(text@ =~= head + batch_tail_json(rs@.subrange(1, i + 1 as int)));
        }
        i = i + 1;
    }
    text.append("]");
    proof {
        assert(text@ =~= batch_json(rs@));
    }
    text
}

} // verus!
