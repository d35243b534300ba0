//! JSON-RPC 2.0 envelopes: requests, responses and error objects.
//!
//! The `id`, `params`, `result` and `data` members are arbitrary JSON
//! values; they are held as `serde_json::Value` and carried through
//! unchanged.
use vstd::prelude::*;

use crate::error::A2AError;

verus! {

/// `serde_json::Value`, a JSON value, carried through as an opaque value.
#[verifier::external_type_specification]
#[verifier::external_body]
pub struct ExJsonValue(serde_json::Value);

/// `serde_json::Error`, carried through as an opaque value.
#[verifier::external_type_specification]
#[verifier::external_body]
pub struct ExJsonError(serde_json::Error);

/// `serde_json::Value` derives `Clone`: a clone is the same JSON value.
pub assume_specification[ <serde_json::Value as Clone>::clone ](v: &serde_json::Value) -> (r:
    serde_json::Value)
    ensures
        r == *v,
;

/// JSON-RPC 2.0 request wrapper (not part of the proto spec).
#[derive(Debug, Clone)]
pub struct JsonRpcRequest {
    pub jsonrpc: String,
    pub id: serde_json::Value,
    pub method: String,
    pub params: Option<serde_json::Value>,
}

/// JSON-RPC 2.0 response wrapper.
#[derive(Debug, Clone)]
pub struct JsonRpcResponse {
    pub jsonrpc: String,
    pub id: serde_json::Value,
    pub result: Option<serde_json::Value>,
    pub error: Option<JsonRpcError>,
}

/// JSON-RPC 2.0 error object.
#[derive(Debug, Clone)]
pub struct JsonRpcError {
    pub code: i32,
    pub message: String,
    pub data: Option<serde_json::Value>,
}

/// The protocol version every envelope of this library carries.
pub open spec fn version_text() -> Seq<char> {
    "2.0"@
}

impl JsonRpcResponse {
    /// `self` answers the request `id` with `result`.
    pub open spec fn is_success_reply(self, id: serde_json::Value, result: serde_json::Value) -> bool {
        &&& self.jsonrpc@ == version_text()
        &&& self.id == id
        &&& self.result == Some(result)
        &&& self.error is None
    }

    /// `self` answers the request `id` with an error object of `code` and `message`
    /// and no data.
    pub open spec fn is_error_reply(self, id: serde_json::Value, code: int, message: Seq<char>) -> bool {
        &&& self.jsonrpc@ == version_text()
        &&& self.id == id
        &&& self.result is None
        &&& self.error matches Some(e) && e.code == code && e.message@ == message && e.data is None
    }

    /// `self` answers the request `id` with the error `err`: its code and its text.
    pub open spec fn is_failure_reply(self, id: serde_json::Value, err: A2AError) -> bool {
        self.is_error_reply(id, err.spec_code(), err.spec_message())
    }

    /// A successful response carrying `result`.
    pub fn success(id: serde_json::Value, result: serde_json::Value) -> (r: Self)
        ensures
            r.is_success_reply(id, result),
    {
        JsonRpcResponse {
            jsonrpc: String::from_str("2.0"),
            id,
            result: Some(result),
            error: None,
        }
    }

    /// An error response with the given code and message.
    pub fn error(id: serde_json::Value, code: i32, message: String) -> (r: Self)
        ensures
            r.is_error_reply(id, code as int, message@),
    {
        JsonRpcResponse {
            jsonrpc: String::from_str("2.0"),
            id,
            result: None,
            error: Some(JsonRpcError { code, message, data: None }),
        }
    }
}

impl JsonRpcRequest {
    /// `self` is a call of `method` with `params`, under the request id `id`.
    pub open spec fn is_call(self, id: serde_json::Value, method: Seq<char>, params: serde_json::Value) -> bool {
        &&& self.jsonrpc@ == version_text()
        &&& self.id == id
        &&& self.method@ == method
        &&& self.params == Some(params)
    }
}

/// The response that answers the request `id` with the error `err`:
/// the error's code and its text.
pub fn error_response(id: serde_json::Value, err: A2AError) -> (r: JsonRpcResponse)
    ensures
        r.is_failure_reply(id, err),
{
    let code = err.code();
    let message = err.to_string();
    JsonRpcResponse::error(id, code, message)
}

} // verus!
