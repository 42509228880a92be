//! The daemon around the JSON-RPC engine: startup errors, the accept-loop
//! lifecycle decisions, and the HTTP routing rules.  The network I/O itself is
//! the host program's business; everything decided here is pure and verified,
//! so a host loop that follows these decisions serves and shuts down exactly
//! as specified.

use crate::daemon::jsonrpc::{JsonRpcService, RpcHandler};
use crate::daemon::wire::spec_dispatch_output;
use crate::text::str_eq;
use vstd::prelude::*;

pub mod handler;
pub mod jsonrpc;
pub mod types;
pub mod wire;

verus! {

/// Errors that can occur in the daemon, usually on startup.
pub enum DaemonError {
    /// An I/O failure while binding or serving, with its description.
    Io(String),
    /// The bind address could not be parsed, with its description.
    AddrParse(String),
}

/// The lifecycle of the daemon: built but not yet bound, serving, told to
/// stop but still draining the accept loop, and stopped.
#[derive(Debug, Clone, Copy, PartialEq, Eq, Structural)]
pub enum DaemonPhase {
    Constructed,
    Listening,
    ShuttingDown,
    Stopped,
}

/// What the accept loop can observe: a new inbound connection, or the
/// shutdown notification.
#[derive(Debug, Clone, Copy, PartialEq, Eq, Structural)]
pub enum AcceptEvent {
    Incoming,
    ShutdownSignal,
}

/// What the accept loop does next: hand the connection to an independent
/// task and keep accepting, or exit at once.
#[derive(Debug, Clone, Copy, PartialEq, Eq, Structural)]
pub enum AcceptDirective {
    SpawnConnection,
    StopAccepting,
}

/// Binding the socket moves a constructed daemon into the listening phase.
pub fn begin_listening(phase: DaemonPhase) -> (r: DaemonPhase)
    requires
        phase is Constructed,
    ensures
        r is Listening,
{
    let _ = phase;
    DaemonPhase::Listening
}

/// Broadcasting the shutdown notification: a listening daemon starts shutting
/// down; repeating the request, or requesting before or after serving, changes
/// nothing, so the signal is idempotent and always harmless.
pub fn request_shutdown(phase: DaemonPhase) -> (r: DaemonPhase)
    ensures
        phase is Listening ==> r is ShuttingDown,
        !(phase is Listening) ==> r == phase,
{
    match phase {
        DaemonPhase::Listening => DaemonPhase::ShuttingDown,
        other => other,
    }
}

/// One decision of the accept loop.  A connection is handed to its own task
/// and the loop keeps going; the shutdown notification stops the loop at once,
/// without waiting for in-flight connection tasks.  After the notification is
/// observed the loop never spawns again, because it is no longer run.
pub fn accept_step(phase: DaemonPhase, event: AcceptEvent) -> (r: (DaemonPhase, AcceptDirective))
    requires
        phase is Listening || phase is ShuttingDown,
    ensures
        event is Incoming ==> r.0 == phase && r.1 is SpawnConnection,
        event is ShutdownSignal ==> r.0 is Stopped && r.1 is StopAccepting,
{
    match event {
        AcceptEvent::Incoming => (phase, AcceptDirective::SpawnConnection),
        AcceptEvent::ShutdownSignal => (DaemonPhase::Stopped, AcceptDirective::StopAccepting),
    }
}

/// The HTTP statuses the transport can answer with.
#[derive(Debug, Clone, Copy, PartialEq, Eq, Structural)]
pub enum HttpStatus {
    Okay,
    NoContent,
    BadRequest,
    NotFound,
    MethodNotAllowed,
}

impl HttpStatus {
    /// The numeric status code.
    pub open spec fn spec_code(self) -> u16 {
        match self {
            HttpStatus::Okay => 200u16,
            HttpStatus::NoContent => 204u16,
            HttpStatus::BadRequest => 400u16,
            HttpStatus::NotFound => 404u16,
            HttpStatus::MethodNotAllowed => 405u16,
        }
    }

    /// The canonical reason phrase.
    pub open spec fn spec_reason(self) -> Seq<char> {
        match self {
            HttpStatus::Okay => "OK"@,
            HttpStatus::NoContent => "No Content"@,
            HttpStatus::BadRequest => "Bad Request"@,
            HttpStatus::NotFound => "Not Found"@,
            HttpStatus::MethodNotAllowed => "Method Not Allowed"@,
        }
    }

    pub fn code(&self) -> (c: u16)
        ensures
            c == self.spec_code(),
    {
        match self {
            HttpStatus::Okay => 200,
            HttpStatus::NoContent => 204,
            HttpStatus::BadRequest => 400,
            HttpStatus::NotFound => 404,
            HttpStatus::MethodNotAllowed => 405,
        }
    }

    pub fn reason(&self) -> (m: &str)
        ensures
            m@ == self.spec_reason(),
    {
        match self {
            HttpStatus::Okay => "OK",
            HttpStatus::NoContent => "No Content",
            HttpStatus::BadRequest => "Bad Request",
            HttpStatus::NotFound => "Not Found",
            HttpStatus::MethodNotAllowed => "Method Not Allowed",
        }
    }
}

/// The transport accepts exactly the root path and `/rpc`.
pub open spec fn spec_path_ok(p: Seq<char>) -> bool {
    p == "/"@ || p == "/rpc"@
}

/// What the transport decides before any protocol work: only `POST`, only the
/// two known paths, and only a body that decoded as text reach the engine.
pub enum RouteDecision {
    Reject(HttpStatus),
    Dispatch,
}

/// The routing rules of the transport, in the order they are checked: a
/// non-POST method is rejected as 405, an unknown path as 404, a body that is
/// not UTF-8 text as 400; everything else is dispatched to the engine.
pub fn route(is_post: bool, path: &str, body_is_text: bool) -> (r: RouteDecision)
    ensures
        !is_post ==> r == RouteDecision::Reject(HttpStatus::MethodNotAllowed),
        is_post && !spec_path_ok(path@) ==> r == RouteDecision::Reject(HttpStatus::NotFound),
        is_post && spec_path_ok(path@) && !body_is_text ==> r == RouteDecision::Reject(
            HttpStatus::BadRequest,
        ),
        is_post && spec_path_ok(path@) && body_is_text ==> r == RouteDecision::Dispatch,
{
    if !is_post {
        return RouteDecision::Reject(HttpStatus::MethodNotAllowed);
    }
    if !str_eq(path, "/rpc") && !str_eq(path, "/") {
        return RouteDecision::Reject(HttpStatus::NotFound);
    }
    if !body_is_text {
        return RouteDecision::Reject(HttpStatus::BadRequest);
    }
    RouteDecision::Dispatch
}

/// What the transport hands back for one request: a status, the body text,
/// and whether the body is a JSON document.
pub struct HttpReply {
    pub status: HttpStatus,
    pub body: String,
    pub json: bool,
}

/// A status-only reply: the body carries the canonical reason phrase as plain
/// text, except that a 204 carries no body at all.
pub fn status_reply(status: HttpStatus) -> (r: HttpReply)
    ensures
        r.status == status,
        !r.json,
        status is NoContent ==> r.body@.len() == 0,
        !(status is NoContent) ==> r.body@ == status.spec_reason(),
{
    let body = match status {
        HttpStatus::NoContent => String::new(),
        _ => status.reason().to_owned(),
    };
    HttpReply { status, body, json: false }
}

/// Maps the engine's output onto the HTTP reply owed for it: an empty output
/// is 204 No Content with no body at all, and any other output is 200 OK with
/// the output as the JSON body, verbatim.
pub fn reply_for_output(out: String) -> (r: HttpReply)
    ensures
        out@.len() == 0 ==> r.status is NoContent && r.body@.len() == 0 && !r.json,
        out@.len() > 0 ==> r.status is Okay && r.body@ == out@ && r.json,
{
    if out.as_str().is_empty() {
        status_reply(HttpStatus::NoContent)
    } else {
        HttpReply { status: HttpStatus::Okay, body: out, json: true }
    }
}

/// One full HTTP exchange, less the socket work: the host hands in the method
/// kind, the path and the body as decoded text (`None` when the bytes were not
/// UTF-8), and gets back exactly what to send.  All protocol decisions are the
/// engine's; the transport only routes, calls `handle_raw` once, and maps its
/// output through `reply_for_output`.
pub fn handle_http<H: RpcHandler>(
    service: &JsonRpcService<H>,
    is_post: bool,
    path: &str,
    body: Option<String>,
) -> (r: HttpReply)
    ensures
        !is_post ==> r.status is MethodNotAllowed,
        is_post && !spec_path_ok(path@) ==> r.status is NotFound,
        is_post && spec_path_ok(path@) && body is None ==> r.status is BadRequest,
        is_post && spec_path_ok(path@) && body is Some ==> (r.status is NoContent || r.status
            is Okay),
        r.status is NoContent ==> r.body@.len() == 0,
        r.status is Okay ==> r.json && r.body@.len() > 0 && spec_dispatch_output(r.body@),
        !(r.status is Okay) ==> !r.json,
        !(r.status is Okay) && !(r.status is NoContent) ==> r.body@ == r.status.spec_reason(),
{
    match route(is_post, path, body.is_some()) {
        RouteDecision::Reject(status) => status_reply(status),
        RouteDecision::Dispatch => {
            let text = body.unwrap();
            reply_for_output(service.handle_raw(text.as_str()))
        },
    }
}

} // verus!
