//! The decisions of the A2A client: the base URL it talks to, the requests it
//! sends, and how it reads the server's JSON-RPC reply.
use vstd::prelude::*;

use crate::decimal::{append_decimal, decimal_text};
use crate::error::A2AError;
use crate::jsonrpc::{JsonRpcError, JsonRpcRequest, JsonRpcResponse};
use crate::server::{dispatches, spec_route, Dispatch, Method, A2A_VERSION};
use crate::text::{trim_end_slashes, trim_trailing_slashes};

verus! {

/// `reqwest::Error`, carried through as an opaque value.
#[verifier::external_type_specification]
#[verifier::external_body]
pub struct ExReqwestError(reqwest::Error);

/// What `Display` of a `reqwest::Error` writes for it.
pub uninterp spec fn reqwest_error_text(e: reqwest::Error) -> Seq<char>;

/// Calls `ToString::to_string` (through `Display`) on a `reqwest::Error`;
/// the text is a function of the error alone.
#[verifier::external_body]
fn reqwest_error_to_string(e: &reqwest::Error) -> (s: String)
    ensures
        s@ == reqwest_error_text(*e),
{
    e.to_string()
}

/// Whether a `serde_json::Error` is an I/O error, as `Error::is_io` answers.
pub uninterp spec fn json_error_io(e: serde_json::Error) -> bool;

/// What `Display` of a `serde_json::Error` that is not an I/O error writes for it.
pub uninterp spec fn json_error_text(e: serde_json::Error) -> Seq<char>;

/// Calls `ToString::to_string` (through `Display`) on a `serde_json::Error`.
/// For an error that is not an I/O error the text is fixed by the error alone
/// (its message, and its line and column where it has them). Nothing is claimed
/// of an I/O error's text: it is the `io::Error`'s own, which may depend on the
/// platform and its locale.
#[verifier::external_body]
fn json_error_to_string(e: &serde_json::Error) -> (s: String)
    ensures
        !json_error_io(*e) ==> s@ == json_error_text(*e),
{
    e.to_string()
}

/// Error type for A2A client operations.
#[derive(Debug)]
pub enum ClientError {
    Http(reqwest::Error),
    Json(serde_json::Error),
    Rpc { code: i32, message: String, data: Option<serde_json::Value> },
}

impl From<reqwest::Error> for ClientError {
    fn from(e: reqwest::Error) -> (r: Self) {
        ClientError::Http(e)
    }
}

impl vstd::std_specs::convert::FromSpecImpl<reqwest::Error> for ClientError {
    open spec fn obeys_from_spec() -> bool {
        true
    }

    open spec fn from_spec(e: reqwest::Error) -> Self {
        ClientError::Http(e)
    }
}

impl From<serde_json::Error> for ClientError {
    fn from(e: serde_json::Error) -> (r: Self) {
        ClientError::Json(e)
    }
}

impl vstd::std_specs::convert::FromSpecImpl<serde_json::Error> for ClientError {
    open spec fn obeys_from_spec() -> bool {
        true
    }

    open spec fn from_spec(e: serde_json::Error) -> Self {
        ClientError::Json(e)
    }
}

impl ClientError {
    /// Whether `text` is the error's text, as its `Display` would write it: a
    /// prefix naming the kind of error, then the HTTP error's text, the JSON
    /// error's text (stated for every JSON error but an I/O one), or the code
    /// and message of a JSON-RPC error.
    pub open spec fn is_message(self, text: Seq<char>) -> bool {
        match self {
            ClientError::Http(e) => text == "HTTP error: "@ + reqwest_error_text(e),
            ClientError::Json(e) => {
                &&& "JSON error: "@.len() <= text.len()
                &&& text.subrange(0, "JSON error: "@.len() as int) == "JSON error: "@
                &&& !json_error_io(e) ==> text == "JSON error: "@ + json_error_text(e)
            },
            ClientError::Rpc { code, message, data: _ } => text == "JSON-RPC error "@
                + decimal_text(code as int) + ": "@ + message@,
        }
    }

    /// The error's text, as its `Display` would write it.
    pub fn to_string(&self) -> (s: String)
        ensures
            self.is_message(s@),
    {
        match self {
            ClientError::Http(e) => {
                let mut s = String::from_str("HTTP error: ");
                let t = reqwest_error_to_string(e);
                s.append(t.as_str());
                s
            },
            ClientError::Json(e) => {
                let mut s = String::from_str("JSON error: ");
                let t = json_error_to_string(e);
                s.append(t.as_str());
                assert(s@.subrange(0, "JSON error: "@.len() as int) =~= "JSON error: "@);
                s
            },
            ClientError::Rpc { code, message, data: _ } => {
                let mut s = String::from_str("JSON-RPC error ");
                append_decimal(&mut s, *code);
                s.append(": ");
                s.append(message.as_str());
                s
            },
        }
    }
}

/// The base URL a client talks to: the given URL without trailing `'/'`.
pub fn normalize_base_url(base_url: &str) -> (r: String)
    ensures
        r@ == trim_trailing_slashes(base_url@),
{
    trim_end_slashes(base_url)
}

/// The path at which an agent serves its agent card.
pub const AGENT_CARD_PATH: &'static str = "/.well-known/agent.json";

/// The URL of the agent card of the agent at `base_url`.
pub fn agent_card_url(base_url: &str) -> (r: String)
    ensures
        r@ == base_url@ + AGENT_CARD_PATH@,
{
    let mut url = String::from_str(base_url);
    url.append(AGENT_CARD_PATH);
    url
}

/// The request of a call of `method` with `params`, under the request id `id`.
pub fn call_request(id: serde_json::Value, method: Method, params: serde_json::Value) -> (r:
    JsonRpcRequest)
    ensures
        r.is_call(id, method.spec_name(), params),
{
    JsonRpcRequest {
        jsonrpc: String::from_str("2.0"),
        id,
        method: String::from_str(method.name()),
        params: Some(params),
    }
}

/// How the client reads a reply: an error object becomes an `Rpc` error with
/// its code, message and data; otherwise the result is the outcome, and a reply
/// with neither is an `Rpc` error -32603 "missing result".
pub open spec fn client_outcome(r: JsonRpcResponse, out: Result<serde_json::Value, ClientError>) -> bool {
    match r.error {
        Some(err) => out == Err::<serde_json::Value, ClientError>(
            ClientError::Rpc { code: err.code, message: err.message, data: err.data },
        ),
        None => match r.result {
            Some(v) => out == Ok::<serde_json::Value, ClientError>(v),
            None => out matches Err(ClientError::Rpc { code, message, data }) && code == -32603
                && message@ == "missing result"@ && data is None,
        },
    }
}

/// Read the server's reply to a call.
pub fn interpret_reply(r: JsonRpcResponse) -> (out: Result<serde_json::Value, ClientError>)
    ensures
        client_outcome(r, out),
{
    let JsonRpcResponse { jsonrpc: _, id: _, result, error } = r;
    if let Some(err) = error {
        return Err(ClientError::Rpc { code: err.code, message: err.message, data: err.data });
    }
    match result {
        Some(v) => Ok(v),
        None => Err(
            ClientError::Rpc { code: -32603, message: String::from_str("missing result"), data: None },
        ),
    }
}

/// A call naming another protocol version reaches the client as an `Rpc` error
/// -32009 naming that version.
pub proof fn lemma_client_reads_foreign_version(
    req: JsonRpcRequest,
    version: Seq<char>,
    r: JsonRpcResponse,
    out: Result<serde_json::Value, ClientError>,
)
    requires
        version != A2A_VERSION@,
        dispatches(req, Some(version), Dispatch::Reply(r)),
        client_outcome(r, out),
    ensures
        out matches Err(ClientError::Rpc { code, message, data }) && code == -32009 && message@
            == "version not supported: "@ + version && data is None,
{
}

/// A client reading a reply that answers with a value gets that value.
pub proof fn lemma_client_reads_success(
    r: JsonRpcResponse,
    id: serde_json::Value,
    v: serde_json::Value,
    out: Result<serde_json::Value, ClientError>,
)
    requires
        r.is_success_reply(id, v),
        client_outcome(r, out),
    ensures
        out == Ok::<serde_json::Value, ClientError>(v),
{
}

/// A client reading a reply that answers with a handler error gets an `Rpc`
/// error with that error's code and text, and no data.
pub proof fn lemma_client_reads_failure(
    r: JsonRpcResponse,
    id: serde_json::Value,
    e: A2AError,
    out: Result<serde_json::Value, ClientError>,
)
    requires
        r.is_failure_reply(id, e),
        client_outcome(r, out),
    ensures
        out matches Err(ClientError::Rpc { code, message, data }) && code == e.spec_code()
            && message@ == e.spec_message() && data is None,
{
}

/// A call in this library's protocol version (or naming none) whose method the
/// server does not know reaches the client as an `Rpc` error -32601 naming the method.
pub proof fn lemma_client_reads_unknown_method(
    req: JsonRpcRequest,
    version: Option<Seq<char>>,
    r: JsonRpcResponse,
    out: Result<serde_json::Value, ClientError>,
)
    requires
        version is None || version == Some(A2A_VERSION@),
        spec_route(req.method@) is None,
        dispatches(req, version, Dispatch::Reply(r)),
        client_outcome(r, out),
    ensures
        out matches Err(ClientError::Rpc { code, message, data }) && code == -32601 && message@
            == "method not found: "@ + req.method@ && data is None,
{
}

/// Every method the client calls by name, in this library's protocol version,
/// is routed by the server to that same method, so a call's params are parsed
/// for, and reach, the handler operation the client meant.
pub proof fn lemma_call_reaches_method(
    id: serde_json::Value,
    m: Method,
    params: serde_json::Value,
    req: JsonRpcRequest,
    d: Dispatch,
)
    requires
        req.is_call(id, m.spec_name(), params),
        dispatches(req, Some(A2A_VERSION@), d),
    ensures
        d == (Dispatch::Parse { id, method: m, params }),
{
    crate::server::lemma_route_name(m);
}


/// A reply that carries an error object, whatever its code, message and data,
/// reaches the client as an `Rpc` error with exactly that code, message and data.
pub proof fn lemma_client_keeps_error_object(
    r: JsonRpcResponse,
    err: JsonRpcError,
    out: Result<serde_json::Value, ClientError>,
)
    requires
        r.error == Some(err),
        client_outcome(r, out),
    ensures
        out matches Err(ClientError::Rpc { code, message, data }) && code == err.code && message
            == err.message && data == err.data,
{
}

/// A reply with a result and no error object reaches the client as that result.
pub proof fn lemma_client_keeps_result(
    r: JsonRpcResponse,
    v: serde_json::Value,
    out: Result<serde_json::Value, ClientError>,
)
    requires
        r.error is None,
        r.result == Some(v),
        client_outcome(r, out),
    ensures
        out == Ok::<serde_json::Value, ClientError>(v),
{
}

} // verus!
