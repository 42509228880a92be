//! JSON-RPC 2.0 engine: message model, validation, call parsing and dispatch.
//!
//! <https://www.jsonrpc.org/specification>

use crate::daemon::wire::{
    batch_json, batch_to_json, lemma_batch_json_nonempty, lemma_plain_error_response,
    lemma_response_json_nonempty, response_json, response_to_json, spec_dispatch_output,
    spec_plain_error_response,
};
use crate::jsonvalue::{
    object_field, parse_json_text, spec_json_of, spec_object_field, spec_value_elems,
    spec_value_is_null, spec_value_str, string_value,
};
use crate::text::str_eq;
use vstd::prelude::*;

verus! {

/// JSON-RPC 2.0 error codes as defined in the specification.
#[derive(Debug, Clone, Copy, PartialEq, Eq, Structural)]
pub enum ErrorCode {
    ParseError,
    InvalidRequest,
    MethodNotFound,
    InvalidParams,
    InternalError,
}

impl ErrorCode {
    /// The numeric code that the protocol reserves for this error.
    pub open spec fn spec_code(self) -> i64 {
        match self {
            ErrorCode::ParseError => -32700i64,
            ErrorCode::InvalidRequest => -32600i64,
            ErrorCode::MethodNotFound => -32601i64,
            ErrorCode::InvalidParams => -32602i64,
            ErrorCode::InternalError => -32603i64,
        }
    }

    /// The fixed human-readable message for this error.
    pub open spec fn spec_message(self) -> Seq<char> {
        match self {
            ErrorCode::ParseError => "Parse error"@,
            ErrorCode::InvalidRequest => "Invalid Request"@,
            ErrorCode::MethodNotFound => "Method not found"@,
            ErrorCode::InvalidParams => "Invalid params"@,
            ErrorCode::InternalError => "Internal error"@,
        }
    }

    pub fn code(&self) -> (c: i64)
        ensures
            c == self.spec_code(),
    {
        match self {
            ErrorCode::ParseError => -32700,
            ErrorCode::InvalidRequest => -32600,
            ErrorCode::MethodNotFound => -32601,
            ErrorCode::InvalidParams => -32602,
            ErrorCode::InternalError => -32603,
        }
    }

    pub fn message(&self) -> (m: &str)
        ensures
            m@ == self.spec_message(),
    {
        match self {
            ErrorCode::ParseError => "Parse error",
            ErrorCode::InvalidRequest => "Invalid Request",
            ErrorCode::MethodNotFound => "Method not found",
            ErrorCode::InvalidParams => "Invalid params",
            ErrorCode::InternalError => "Internal error",
        }
    }
}

/// JSON-RPC 2.0 error object.
#[derive(Debug, Clone)]
pub struct RpcError {
    pub code: i64,
    pub message: String,
    pub data: Option<serde_json::Value>,
}

impl RpcError {
    pub fn new(error_code: ErrorCode) -> (r: Self)
        ensures
            r.code == error_code.spec_code(),
            r.message@ == error_code.spec_message(),
            r.data is None,
    {
        Self { code: error_code.code(), message: error_code.message().to_owned(), data: None }
    }

    pub fn with_data(self, data: serde_json::Value) -> (r: Self)
        ensures
            r.code == self.code,
            r.message == self.message,
            r.data == Some(data),
    {
        Self { code: self.code, message: self.message, data: Some(data) }
    }

    pub fn custom(code: i64, message: String) -> (r: Self)
        ensures
            r.code == code,
            r.message == message,
            r.data is None,
    {
        Self { code, message, data: None }
    }
}

/// A parse-stage error: `InvalidRequest` with its fixed message and a
/// descriptive `data` string attached.
pub open spec fn is_invalid_request_error(e: RpcError) -> bool {
    &&& e.code == -32600
    &&& e.message@ == "Invalid Request"@
    &&& e.data is Some
}

/// A parse-stage error: `ParseError` with its fixed message and no detail.
pub open spec fn is_parse_error(e: RpcError) -> bool {
    &&& e.code == -32700
    &&& e.message@ == "Parse error"@
    &&& e.data is None
}

/// The error's `data` is a JSON string whose text is `reason`, stated through
/// its wire rendering.
pub open spec fn spec_error_data_text(e: RpcError, reason: Seq<char>) -> bool {
    e.data matches Some(d) && crate::jsonvalue::value_text(d) == "\""@
        + crate::text::escaped_text(reason) + "\""@
}

/// The descriptive text a request's validation failure carries: the version
/// rule is checked first, then the non-empty-method rule.
pub open spec fn spec_validate_reason(q: RpcRequest) -> Seq<char> {
    if q.jsonrpc@ != "2.0"@ {
        "jsonrpc field must be '2.0'"@
    } else {
        "method field cannot be empty"@
    }
}

/// JSON-RPC 2.0 request object.
#[derive(Debug, Clone)]
pub struct RpcRequest {
    pub jsonrpc: String,
    pub method: String,
    pub params: Option<serde_json::Value>,
    pub id: Option<serde_json::Value>,
}

impl RpcRequest {
    /// The two request-level legality rules: the protocol version is `"2.0"`
    /// and the method name is non-empty.
    pub open spec fn spec_valid(self) -> bool {
        &&& self.jsonrpc@ == "2.0"@
        &&& self.method@.len() > 0
    }

    /// A notification is a request without an id; it never gets a response.
    pub open spec fn spec_is_notification(self) -> bool {
        self.id is None
    }

    pub fn new(method: String, params: Option<serde_json::Value>, id: Option<serde_json::Value>) -> (r:
        Self)
        ensures
            r.jsonrpc@ == "2.0"@,
            r.method == method,
            r.params == params,
            r.id == id,
    {
        Self { jsonrpc: "2.0".to_owned(), method, params, id }
    }

    /// Check if this is a notification (no id field).
    pub fn is_notification(&self) -> (r: bool)
        ensures
            r == self.spec_is_notification(),
    {
        self.id.is_none()
    }

    /// Validate the request according to the JSON-RPC 2.0 spec.
    pub fn validate(&self) -> (r: Result<(), RpcError>)
        ensures
            r is Ok <==> self.spec_valid(),
            r matches Err(e) ==> is_invalid_request_error(e) && spec_error_data_text(
                e,
                spec_validate_reason(*self),
            ),
    {
        if !str_eq(self.jsonrpc.as_str(), "2.0") {
            return Err(
                RpcError::new(ErrorCode::InvalidRequest).with_data(
                    string_value("jsonrpc field must be '2.0'".to_owned()),
                ),
            );
        }
        if self.method.as_str().is_empty() {
            return Err(
                RpcError::new(ErrorCode::InvalidRequest).with_data(
                    string_value("method field cannot be empty".to_owned()),
                ),
            );
        }
        Ok(())
    }
}

/// JSON-RPC 2.0 response object.  An absent id stands for JSON null on the
/// wire, which is used when a failure cannot be attributed to any request.
#[derive(Debug, Clone)]
pub struct RpcResponse {
    pub jsonrpc: String,
    pub result: Option<serde_json::Value>,
    pub error: Option<RpcError>,
    pub id: Option<serde_json::Value>,
}

impl RpcResponse {
    /// Exactly one of result and error is populated, under the fixed protocol
    /// version.
    pub open spec fn spec_well_formed(self) -> bool {
        &&& self.jsonrpc@ == "2.0"@
        &&& (self.result is Some) != (self.error is Some)
    }

    pub fn success(result: serde_json::Value, id: Option<serde_json::Value>) -> (r: Self)
        ensures
            r.jsonrpc@ == "2.0"@,
            r.result == Some(result),
            r.error is None,
            r.id == id,
            r.spec_well_formed(),
    {
        Self { jsonrpc: "2.0".to_owned(), result: Some(result), error: None, id }
    }

    pub fn error(error: RpcError, id: Option<serde_json::Value>) -> (r: Self)
        ensures
            r.jsonrpc@ == "2.0"@,
            r.result is None,
            r.error == Some(error),
            r.id == id,
            r.spec_well_formed(),
    {
        Self { jsonrpc: "2.0".to_owned(), result: None, error: Some(error), id }
    }
}

/// Represents either a single request or batch requests.
#[derive(Debug)]
pub enum RpcCall {
    Single(RpcRequest),
    Batch(Vec<RpcRequest>),
}

/// The text of a string field of a JSON object, if the key holds one.
pub open spec fn spec_req_text_field(v: serde_json::Value, key: Seq<char>) -> Option<Seq<char>> {
    match spec_object_field(v, key) {
        Some(f) => spec_value_str(f),
        None => None,
    }
}

/// An optional field of a JSON object: an absent key and an explicit null
/// both read as absent.
pub open spec fn spec_opt_field(v: serde_json::Value, key: Seq<char>) -> Option<serde_json::Value> {
    match spec_object_field(v, key) {
        Some(f) => if spec_value_is_null(f) {
            None
        } else {
            Some(f)
        },
        None => None,
    }
}

/// The value reads as a request object: `jsonrpc` and `method` are string
/// fields.
pub open spec fn spec_is_request(v: serde_json::Value) -> bool {
    spec_req_text_field(v, "jsonrpc"@) is Some && spec_req_text_field(v, "method"@) is Some
}

/// `q` is exactly the request read out of `v`.
pub open spec fn spec_matches_request(v: serde_json::Value, q: RpcRequest) -> bool {
    &&& spec_req_text_field(v, "jsonrpc"@) == Some(q.jsonrpc@)
    &&& spec_req_text_field(v, "method"@) == Some(q.method@)
    &&& q.params == spec_opt_field(v, "params"@)
    &&& q.id == spec_opt_field(v, "id"@)
}

/// The request read out of `v` passes validation.
pub open spec fn spec_request_valid_of(v: serde_json::Value) -> bool {
    &&& spec_req_text_field(v, "jsonrpc"@) == Some("2.0"@)
    &&& match spec_req_text_field(v, "method"@) {
        Some(m) => m.len() > 0,
        None => false,
    }
}

/// The descriptive text the request read out of `v` fails validation with.
pub open spec fn spec_invalid_reason_of(v: serde_json::Value) -> Seq<char> {
    if spec_req_text_field(v, "jsonrpc"@) != Some("2.0"@) {
        "jsonrpc field must be '2.0'"@
    } else {
        "method field cannot be empty"@
    }
}

/// The text reads as a single request object.
pub open spec fn spec_single_of(t: Seq<char>) -> Option<serde_json::Value> {
    match spec_json_of(t) {
        Some(v) => if spec_is_request(v) {
            Some(v)
        } else {
            None
        },
        None => None,
    }
}

/// The text reads as an array of request objects — attempted only when it
/// does not read as a single request.
pub open spec fn spec_batch_of(t: Seq<char>) -> Option<Seq<serde_json::Value>> {
    match spec_json_of(t) {
        Some(v) => if spec_is_request(v) {
            None
        } else {
            match spec_value_elems(v) {
                Some(es) => if forall|i: int|
                    0 <= i < es.len() ==> spec_is_request(#[trigger] es[i]) {
                    Some(es)
                } else {
                    None
                },
                None => None,
            }
        },
        None => None,
    }
}

/// The text reads as neither form of call.
pub open spec fn spec_parse_failed(t: Seq<char>) -> bool {
    spec_single_of(t) is None && spec_batch_of(t) is None
}

/// The position of the first element whose request fails validation (the
/// array's length when every one passes).
pub open spec fn spec_first_invalid_of(es: Seq<serde_json::Value>) -> int
    decreases es.len(),
{
    if es.len() == 0 {
        0
    } else if !spec_request_valid_of(es[0]) {
        0
    } else {
        1 + spec_first_invalid_of(es.subrange(1, es.len() as int))
    }
}

proof fn lemma_first_invalid_props(qs: Seq<RpcRequest>)
    requires
        exists|i: int| 0 <= i < qs.len() && !(#[trigger] qs[i]).spec_valid(),
    ensures
        0 <= spec_first_invalid(qs) < qs.len(),
        !qs[spec_first_invalid(qs)].spec_valid(),
    decreases qs.len(),
{
    if qs.len() > 0 {
        if !qs[0].spec_valid() {
        } else {
            let qs1 = qs.subrange(1, qs.len() as int);
            let i = choose|i: int| 0 <= i < qs.len() && !(#[trigger] qs[i]).spec_valid();
            assert(i >= 1);
            assert(!qs1[i - 1].spec_valid());
            lemma_first_invalid_props(qs1);
        }
    }
}

proof fn lemma_first_invalid_bridge(es: Seq<serde_json::Value>, qs: Seq<RpcRequest>)
    requires
        es.len() == qs.len(),
        forall|i: int| 0 <= i < es.len() ==> spec_matches_request(#[trigger] es[i], qs[i]),
    ensures
        spec_first_invalid_of(es) == spec_first_invalid(qs),
    decreases es.len(),
{
    if es.len() > 0 {
        assert(spec_matches_request(es[0], qs[0]));
        let es1 = es.subrange(1, es.len() as int);
        let qs1 = qs.subrange(1, qs.len() as int);
        assert forall|i: int| 0 <= i < es1.len() implies spec_matches_request(
            #[trigger] es1[i],
            qs1[i],
        ) by {
            assert(es1[i] == es[i + 1]);
            assert(qs1[i] == qs[i + 1]);
            assert(spec_matches_request(es[i + 1], qs[i + 1]));
        }
        lemma_first_invalid_bridge(es1, qs1);
    }
}

/// What parsing promises of a call it accepts: a single request is valid, and
/// a batch is non-empty with every member valid.
pub open spec fn spec_call_ok(c: RpcCall) -> bool {
    match c {
        RpcCall::Single(q) => q.spec_valid(),
        RpcCall::Batch(qs) => qs@.len() > 0 && forall|i: int|
            0 <= i < qs@.len() ==> (#[trigger] qs@[i]).spec_valid(),
    }
}

impl RpcCall {
    /// Parse a JSON string into an RPC call: exactly when the text reads as a
    /// request object, that request is taken (and validated) and array parsing
    /// is never attempted; exactly when it instead reads as an array of
    /// request objects, the batch is taken whole, in order, gated on being
    /// non-empty and all valid; and exactly when it reads as neither, the
    /// whole call is a parse error.
    pub fn from_json(json: &str) -> (r: Result<RpcCall, RpcError>)
        ensures
            r matches Ok(c) ==> spec_call_ok(c),
            r matches Err(e) ==> is_invalid_request_error(e) || is_parse_error(e),
            spec_single_of(json@) matches Some(v) ==> ({
                &&& spec_request_valid_of(v) ==> (r matches Ok(c) && c matches RpcCall::Single(q)
                    && spec_matches_request(v, q))
                &&& !spec_request_valid_of(v) ==> (r matches Err(e) && is_invalid_request_error(e)
                    && spec_error_data_text(e, spec_invalid_reason_of(v)))
            }),
            spec_batch_of(json@) matches Some(es) ==> spec_single_of(json@) is None ==> ({
                &&& es.len() == 0 ==> (r matches Err(e) && is_invalid_request_error(e)
                    && spec_error_data_text(e, "batch request cannot be empty"@))
                &&& es.len() > 0 && (forall|i: int|
                    0 <= i < es.len() ==> spec_request_valid_of(#[trigger] es[i])) ==> (
                r matches Ok(c) && c matches RpcCall::Batch(qs) && qs@.len() == es.len() && (
                forall|i: int| 0 <= i < es.len() ==> spec_matches_request(#[trigger] es[i], qs@[i])))
                &&& (exists|i: int|
                    0 <= i < es.len() && !spec_request_valid_of(#[trigger] es[i])) ==> (
                r matches Err(e) && is_invalid_request_error(e) && spec_error_data_text(
                    e,
                    spec_invalid_reason_of(es[spec_first_invalid_of(es)]),
                ))
            }),
            spec_parse_failed(json@) <==> (r matches Err(e) && is_parse_error(e)),
    {
        match parse_json_text(json) {
            None => Err(RpcError::new(ErrorCode::ParseError)),
            Some(v) => {
                let single = request_from_value(&v);
                if let Some(q) = single {
                    proof {
                        assert(q.spec_valid() <==> spec_request_valid_of(v));
                        assert(!q.spec_valid() ==> spec_validate_reason(q)
                            == spec_invalid_reason_of(v));
                    }
                    assemble_call(Some(q), None)
                } else {
                    match v.as_array() {
                        Some(vs) => {
                            match batch_from_values(vs) {
                                Some(qs) => {
                                    let r = assemble_call(None, Some(qs));
                                    proof {
                                        assert(spec_batch_of(json@) == Some(vs@));
                                        assert forall|i: int| 0 <= i < vs@.len() implies ((
                                        #[trigger] qs@[i]).spec_valid()
                                            <==> spec_request_valid_of(vs@[i])) by {
                                            assert(spec_matches_request(vs@[i], qs@[i]));
                                        }
                                        assert forall|i: int| 0 <= i < vs@.len() implies (!(
                                        #[trigger] qs@[i]).spec_valid() ==> spec_validate_reason(
                                            qs@[i],
                                        ) == spec_invalid_reason_of(vs@[i])) by {
                                            assert(spec_matches_request(vs@[i], qs@[i]));
                                        }
                                        if exists|i: int|
                                            0 <= i < qs@.len() && !(
                                            #[trigger] qs@[i]).spec_valid() {
                                            lemma_first_invalid_props(qs@);
                                            lemma_first_invalid_bridge(vs@, qs@);
                                        }
                                    }
                                    r
                                },
                                None => Err(RpcError::new(ErrorCode::ParseError)),
                            }
                        },
                        None => Err(RpcError::new(ErrorCode::ParseError)),
                    }
                }
            },
        }
    }
}

/// Reads a request out of a JSON value: an object whose `jsonrpc` and `method`
/// fields are strings, with `params` and `id` taken over when present and not
/// null.  Anything else is not a request.
fn request_from_value(v: &serde_json::Value) -> (r: Option<RpcRequest>)
    ensures
        r is Some <==> spec_is_request(*v),
        r matches Some(q) ==> spec_matches_request(*v, q),
{
    let jsonrpc: String = match object_field(v, "jsonrpc") {
        Some(x) => match x.as_str() {
            Some(s) => s.to_owned(),
            None => {
                return None;
            },
        },
        None => {
            return None;
        },
    };
    let method: String = match object_field(v, "method") {
        Some(x) => match x.as_str() {
            Some(s) => s.to_owned(),
            None => {
                return None;
            },
        },
        None => {
            return None;
        },
    };
    let params = match object_field(v, "params") {
        Some(x) => if x.is_null() {
            None
        } else {
            Some(x)
        },
        None => None,
    };
    let id = match object_field(v, "id") {
        Some(x) => if x.is_null() {
            None
        } else {
            Some(x)
        },
        None => None,
    };
    Some(RpcRequest { jsonrpc, method, params, id })
}

/// Reads a batch out of the elements of a JSON array; the whole batch is
/// rejected as soon as one element is not a request.
fn batch_from_values(vs: &Vec<serde_json::Value>) -> (r: Option<Vec<RpcRequest>>)
    ensures
        r is Some <==> (forall|i: int| 0 <= i < vs@.len() ==> spec_is_request(#[trigger] vs@[i])),
        r matches Some(qs) ==> qs@.len() == vs@.len() && (forall|i: int|
            0 <= i < vs@.len() ==> spec_matches_request(#[trigger] vs@[i], qs@[i])),
{
    let mut out: Vec<RpcRequest> = Vec::new();
    let mut i: usize = 0;
    while i < vs.len()
        invariant
            i <= vs@.len(),
            out@.len() == i,
            forall|j: int|
                0 <= j < i ==> spec_is_request(#[trigger] vs@[j]) && spec_matches_request(
                    vs@[j],
                    out@[j],
                ),
        decreases vs@.len() - i,
    {
        match request_from_value(&vs[i]) {
            Some(q) => out.push(q),
            None => {
                return None;
            },
        }
        i = i + 1;
    }
    Some(out)
}

/// The position of the first invalid request of a batch (the batch's length
/// when every member is valid).
pub open spec fn spec_first_invalid(qs: Seq<RpcRequest>) -> int
    decreases qs.len(),
{
    if qs.len() == 0 {
        0
    } else if !qs[0].spec_valid() {
        0
    } else {
        1 + spec_first_invalid(qs.subrange(1, qs.len() as int))
    }
}

proof fn lemma_first_invalid_at(qs: Seq<RpcRequest>, i: int)
    requires
        0 <= i < qs.len(),
        !qs[i].spec_valid(),
        forall|j: int| 0 <= j < i ==> (#[trigger] qs[j]).spec_valid(),
    ensures
        spec_first_invalid(qs) == i,
    decreases i,
{
    if i == 0 {
    } else {
        lemma_first_invalid_at(qs.subrange(1, qs.len() as int), i - 1);
    }
}

/// The decision that turns the two parse attempts into a call, exactly as the
/// protocol core orders them: a recognisable single request wins and is
/// validated; otherwise a recognisable batch must be non-empty and every
/// member valid, the first invalid member's own validation error rejecting the
/// whole batch; otherwise the text was not a call at all.
pub fn assemble_call(single: Option<RpcRequest>, batch: Option<Vec<RpcRequest>>) -> (r: Result<
    RpcCall,
    RpcError,
>)
    ensures
        single matches Some(q) ==> ({
            &&& q.spec_valid() ==> r == Ok::<RpcCall, RpcError>(RpcCall::Single(q))
            &&& !q.spec_valid() ==> (r matches Err(e) && is_invalid_request_error(e)
                && spec_error_data_text(e, spec_validate_reason(q)))
        }),
        batch matches Some(qs) ==> ({
            &&& single is None && qs@.len() == 0 ==> (r matches Err(e)
                && is_invalid_request_error(e) && spec_error_data_text(
                e,
                "batch request cannot be empty"@,
            ))
            &&& single is None && qs@.len() > 0 && (forall|i: int|
                0 <= i < qs@.len() ==> (#[trigger] qs@[i]).spec_valid()) ==> r == Ok::<
                RpcCall,
                RpcError,
            >(RpcCall::Batch(qs))
            &&& single is None && (exists|i: int|
                0 <= i < qs@.len() && !(#[trigger] qs@[i]).spec_valid()) ==> (r matches Err(e)
                && is_invalid_request_error(e) && spec_error_data_text(
                e,
                spec_validate_reason(qs@[spec_first_invalid(qs@)]),
            ))
        }),
        single is None && batch is None ==> (r matches Err(e) && is_parse_error(e)),
{
    if let Some(q) = single {
        match q.validate() {
            Ok(()) => Ok(RpcCall::Single(q)),
            Err(e) => Err(e),
        }
    } else if let Some(qs) = batch {
        if qs.len() == 0 {
            return Err(
                RpcError::new(ErrorCode::InvalidRequest).with_data(
                    string_value("batch request cannot be empty".to_owned()),
                ),
            );
        }
        let mut i: usize = 0;
        while i < qs.len()
            invariant
                single is None,
                batch == Some(qs),
                i <= qs@.len(),
                forall|j: int| 0 <= j < i ==> (#[trigger] qs@[j]).spec_valid(),
            decreases qs@.len() - i,
        {
            match qs[i].validate() {
                Ok(()) => {},
                Err(e) => {
                    proof {
                        lemma_first_invalid_at(qs@, i as int);
                    }
                    return Err(e);
                },
            }
            i = i + 1;
        }
        Ok(RpcCall::Batch(qs))
    } else {
        Err(RpcError::new(ErrorCode::ParseError))
    }
}

/// Represents either a single response or batch responses; the wire form is
/// just an object or an array, without the tag.
#[derive(Debug)]
pub enum RpcOutput {
    Single(RpcResponse),
    Batch(Vec<RpcResponse>),
}

/// The wire text of an output.
pub open spec fn output_json(o: RpcOutput) -> Seq<char> {
    match o {
        RpcOutput::Single(r) => response_json(r),
        RpcOutput::Batch(rs) => batch_json(rs@),
    }
}

impl RpcOutput {
    /// Serializes the output; the rendering is total, so nothing can fail.
    pub fn to_json(&self) -> (r: String)
        requires
            self matches RpcOutput::Batch(rs) ==> rs@.len() > 0,
        ensures
            r@ == output_json(*self),
    {
        match self {
            RpcOutput::Single(resp) => response_to_json(resp),
            RpcOutput::Batch(resps) => batch_to_json(resps),
        }
    }
}

/// Handler trait for RPC methods: the pluggable capability that maps a method
/// name and optional parameters to a domain result or error.  It is shared
/// read-only across every concurrent connection, so an implementation must be
/// `Send + Sync`.
pub trait RpcHandler: Send + Sync {
    fn handle(&self, method: &str, params: Option<serde_json::Value>) -> Result<
        serde_json::Value,
        RpcError,
    >;
}

/// The requests of a batch that are owed a response, in order: everything that
/// is not a notification.
pub open spec fn spec_answered(qs: Seq<RpcRequest>) -> Seq<RpcRequest> {
    qs.filter(|q: RpcRequest| q.id is Some)
}

/// The requests of a batch that stay silent, in order: the notifications.
pub open spec fn spec_notifications(qs: Seq<RpcRequest>) -> Seq<RpcRequest> {
    qs.filter(|q: RpcRequest| q.id is None)
}

/// For a batch of `N` requests of which `M` are notifications, exactly
/// `N - M` responses are owed: the answered requests and the notifications
/// partition the batch.
pub proof fn lemma_batch_response_count(qs: Seq<RpcRequest>)
    ensures
        spec_answered(qs).len() + spec_notifications(qs).len() == qs.len(),
    decreases qs.len(),
{
    reveal(Seq::filter);
    if qs.len() > 0 {
        lemma_batch_response_count(qs.drop_last());
    }
}

/// A batch owes no response at all exactly when every one of its requests is
/// a notification.
pub proof fn lemma_answered_empty_iff(qs: Seq<RpcRequest>)
    ensures
        spec_answered(qs).len() == 0 <==> (forall|i: int|
            0 <= i < qs.len() ==> (#[trigger] qs[i]).id is None),
    decreases qs.len(),
{
    reveal(Seq::filter);
    if qs.len() > 0 {
        let d = qs.drop_last();
        lemma_answered_empty_iff(d);
        assert(spec_answered(qs) == if qs.last().id is Some {
            spec_answered(d).push(qs.last())
        } else {
            spec_answered(d)
        });
        if forall|i: int| 0 <= i < qs.len() ==> (#[trigger] qs[i]).id is None {
            assert((qs[qs.len() - 1]).id is None);
            assert forall|i: int| 0 <= i < d.len() implies (#[trigger] d[i]).id is None by {
                assert(d[i] == qs[i]);
            }
            assert(spec_answered(qs).len() == 0);
        }
        if spec_answered(qs).len() == 0 {
            assert(!(qs.last().id is Some));
            assert forall|i: int| 0 <= i < qs.len() implies (#[trigger] qs[i]).id is None by {
                if i < qs.len() - 1 {
                    assert(qs[i] == d[i]);
                } else {
                    assert(qs[i] == qs.last());
                }
            }
        }
    }
}

proof fn lemma_answered_push(s: Seq<RpcRequest>, q: RpcRequest)
    ensures
        spec_answered(s.push(q)) == if q.id is Some {
            spec_answered(s).push(q)
        } else {
            spec_answered(s)
        },
{
    reveal(Seq::filter);
    assert(s.push(q).drop_last() =~= s);
    assert(s.push(q).last() == q);
}

/// Main JSON-RPC service.
pub struct JsonRpcService<H: RpcHandler> {
    handler: H,
}

impl<H: RpcHandler> JsonRpcService<H> {
    pub fn new(handler: H) -> Self {
        Self { handler }
    }

    /// Handle a single RPC request.  A notification is still handed to the
    /// handler but never produces a response, whatever the handler does; any
    /// other request produces exactly one well-formed response that echoes the
    /// request's id.
    pub fn handle_single(&self, request: RpcRequest) -> (r: Option<RpcResponse>)
        ensures
            r is Some <==> !request.spec_is_notification(),
            r matches Some(resp) ==> resp.id == request.id && resp.spec_well_formed(),
    {
        let RpcRequest { jsonrpc: _, method, params, id } = request;
        if id.is_none() {
            let _ = self.handler.handle(method.as_str(), params);
            return None;
        }
        let response = match self.handler.handle(method.as_str(), params) {
            Ok(result) => RpcResponse::success(result, id),
            Err(error) => RpcResponse::error(error, id),
        };
        Some(response)
    }

    /// Handle a batch of RPC requests: each request in original order, with
    /// every notification dropped, so the responses line up one-to-one with
    /// the non-notification requests.
    pub fn handle_batch(&self, requests: Vec<RpcRequest>) -> (r: Vec<RpcResponse>)
        ensures
            r@.len() == spec_answered(requests@).len(),
            forall|i: int|
                0 <= i < r@.len() ==> (#[trigger] r@[i]).spec_well_formed() && r@[i].id
                    == spec_answered(requests@)[i].id && r@[i].id is Some,
    {
        let mut rest = requests;
        let ghost all = rest@;
        let mut out: Vec<RpcResponse> = Vec::new();
        let ghost mut k: int = 0;
        while rest.len() > 0
            invariant
                0 <= k <= all.len(),
                rest@ == all.subrange(k, all.len() as int),
                out@.len() == spec_answered(all.take(k)).len(),
                forall|i: int|
                    0 <= i < out@.len() ==> (#[trigger] out@[i]).spec_well_formed() && out@[i].id
                        == spec_answered(all.take(k))[i].id && out@[i].id is Some,
            decreases rest.len(),
        {
            let q = rest.remove(0);
            proof {
                assert(q == all[k]);
                assert(rest@ =~= all.subrange(k + 1, all.len() as int));
                assert(all.take(k).push(q) =~= all.take(k + 1));
                lemma_answered_push(all.take(k), q);
            }
            match self.handle_single(q) {
                Some(resp) => out.push(resp),
                None => {},
            }
            proof {
                k = k + 1;
            }
        }
        proof {
            assert(all.take(k) =~= all);
            assert(all =~= requests@);
        }
        out
    }

    /// The text owed for a parsed call: a lone notification, or a batch made
    /// only of notifications, owes nothing at all; every other call owes the
    /// wire text of its well-formed response or responses.
    pub fn respond(&self, call: RpcCall) -> (r: String)
        ensures
            r@.len() == 0 || spec_dispatch_output(r@),
            call matches RpcCall::Single(q) ==> (r@.len() == 0 <==> q.spec_is_notification()),
            call matches RpcCall::Batch(qs) ==> (r@.len() == 0 <==> spec_answered(qs@).len() == 0),
    {
        match call {
            RpcCall::Single(request) => {
                match self.handle_single(request) {
                    Some(resp) => {
                        proof {
                            lemma_response_json_nonempty(resp);
                        }
                        response_to_json(&resp)
                    },
                    None => String::new(),
                }
            },
            RpcCall::Batch(requests) => {
                let responses = self.handle_batch(requests);
                if responses.len() == 0 {
                    String::new()
                } else {
                    proof {
                        lemma_batch_json_nonempty(responses@);
                    }
                    batch_to_json(&responses)
                }
            },
        }
    }

    /// Process a raw JSON string and return the text to send back.  The empty
    /// string — owed exactly when the text reads as a lone notification or as
    /// a valid batch of notifications only — means no body; every other
    /// reading is answered: a well-formed response or batch for an accepted
    /// call, and, for each way the call can fail before any id is known, the
    /// exact error-response text with a null id.
    pub fn handle_raw(&self, json: &str) -> (r: String)
        ensures
            r@.len() == 0 || spec_dispatch_output(r@),
            spec_parse_failed(json@) ==> r@ == spec_plain_error_response(
                -32700,
                "Parse error"@,
                None::<Seq<char>>,
            ),
            spec_single_of(json@) matches Some(v) ==> ({
                &&& !spec_request_valid_of(v) ==> r@ == spec_plain_error_response(
                    -32600,
                    "Invalid Request"@,
                    Some(spec_invalid_reason_of(v)),
                )
                &&& spec_request_valid_of(v) ==> (r@.len() == 0 <==> spec_opt_field(v, "id"@)
                    is None)
            }),
            spec_batch_of(json@) matches Some(es) ==> spec_single_of(json@) is None ==> ({
                &&& es.len() == 0 ==> r@ == spec_plain_error_response(
                    -32600,
                    "Invalid Request"@,
                    Some("batch request cannot be empty"@),
                )
                &&& (exists|i: int|
                    0 <= i < es.len() && !spec_request_valid_of(#[trigger] es[i])) ==> r@
                    == spec_plain_error_response(
                    -32600,
                    "Invalid Request"@,
                    Some(spec_invalid_reason_of(es[spec_first_invalid_of(es)])),
                )
                &&& es.len() > 0 && (forall|i: int|
                    0 <= i < es.len() ==> spec_request_valid_of(#[trigger] es[i])) ==> (r@.len()
                    == 0 <==> (forall|i: int|
                    0 <= i < es.len() ==> spec_opt_field(#[trigger] es[i], "id"@) is None))
            }),
    {
        match RpcCall::from_json(json) {
            Ok(call) => {
                let ghost c = call;
                let out = self.respond(call);
                proof {
                    if c is Batch {
                        let qs = c->Batch_0;
                        lemma_answered_empty_iff(qs@);
                        if spec_single_of(json@) is None && spec_batch_of(json@) is Some {
                            let es = spec_batch_of(json@)->Some_0;
                            if es.len() > 0 && (forall|i: int|
                                0 <= i < es.len() ==> spec_request_valid_of(#[trigger] es[i])) {
                                assert forall|i: int| 0 <= i < es.len() implies ((
                                #[trigger] qs@[i]).id is None <==> spec_opt_field(es[i], "id"@)
                                    is None) by {
                                    assert(spec_matches_request(es[i], qs@[i]));
                                }
                            }
                        }
                    }
                }
                out
            },
            Err(error) => {
                let resp = RpcResponse::error(error, None);
                proof {
                    lemma_response_json_nonempty(resp);
                    if spec_parse_failed(json@) {
                        lemma_plain_error_response(
                            resp,
                            -32700,
                            "Parse error"@,
                            None::<Seq<char>>,
                        );
                    }
                    if spec_single_of(json@) is Some {
                        let v = spec_single_of(json@)->Some_0;
                        if !spec_request_valid_of(v) {
                            lemma_plain_error_response(
                                resp,
                                -32600,
                                "Invalid Request"@,
                                Some(spec_invalid_reason_of(v)),
                            );
                        }
                    }
                    if spec_single_of(json@) is None && spec_batch_of(json@) is Some {
                        let es = spec_batch_of(json@)->Some_0;
                        if es.len() == 0 {
                            lemma_plain_error_response(
                                resp,
                                -32600,
                                "Invalid Request"@,
                                Some("batch request cannot be empty"@),
                            );
                        }
                        if exists|i: int|
                            0 <= i < es.len() && !spec_request_valid_of(#[trigger] es[i]) {
                            lemma_plain_error_response(
                                resp,
                                -32600,
                                "Invalid Request"@,
                                Some(spec_invalid_reason_of(es[spec_first_invalid_of(es)])),
                            );
                        }
                    }
                }
                response_to_json(&resp)
            },
        }
    }
}

} // verus!
