//! The decisions of the A2A JSON-RPC server: which operation a request names,
//! when a request is answered at once with an error, how a handler's outcome
//! becomes a response, how each item of a streamed reply becomes an event,
//! and what an operation that a handler leaves out answers.
use vstd::prelude::*;

use crate::error::A2AError;
use crate::jsonrpc::{error_response, JsonRpcRequest, JsonRpcResponse};
use crate::text::str_eq;

verus! {

/// The A2A v1.0 JSON-RPC methods, one per handler operation.
#[derive(Debug, Clone, Copy, PartialEq, Eq, Structural)]
pub enum Method {
    SendMessage,
    SendStreamingMessage,
    GetTask,
    ListTasks,
    CancelTask,
    SubscribeToTask,
    CreatePushNotificationConfig,
    GetPushNotificationConfig,
    ListPushNotificationConfigs,
    DeletePushNotificationConfig,
    GetExtendedAgentCard,
}

impl Method {
    /// The method's name on the wire.
    pub open spec fn spec_name(self) -> Seq<char> {
        match self {
            Method::SendMessage => "message/send"@,
            Method::SendStreamingMessage => "message/stream"@,
            Method::GetTask => "tasks/get"@,
            Method::ListTasks => "tasks/list"@,
            Method::CancelTask => "tasks/cancel"@,
            Method::SubscribeToTask => "tasks/subscribe"@,
            Method::CreatePushNotificationConfig => "tasks/pushNotificationConfig/set"@,
            Method::GetPushNotificationConfig => "tasks/pushNotificationConfig/get"@,
            Method::ListPushNotificationConfigs => "tasks/pushNotificationConfig/list"@,
            Method::DeletePushNotificationConfig => "tasks/pushNotificationConfig/delete"@,
            Method::GetExtendedAgentCard => "agent/extendedCard"@,
        }
    }

    /// Whether the method answers with a stream of events rather than one response.
    pub open spec fn spec_streams(self) -> bool {
        self is SendStreamingMessage || self is SubscribeToTask
    }

    /// The method's name on the wire.
    pub fn name(&self) -> (r: &'static str)
        ensures
            r@ == self.spec_name(),
    {
        match self {
            Method::SendMessage => "message/send",
            Method::SendStreamingMessage => "message/stream",
            Method::GetTask => "tasks/get",
            Method::ListTasks => "tasks/list",
            Method::CancelTask => "tasks/cancel",
            Method::SubscribeToTask => "tasks/subscribe",
            Method::CreatePushNotificationConfig => "tasks/pushNotificationConfig/set",
            Method::GetPushNotificationConfig => "tasks/pushNotificationConfig/get",
            Method::ListPushNotificationConfigs => "tasks/pushNotificationConfig/list",
            Method::DeletePushNotificationConfig => "tasks/pushNotificationConfig/delete",
            Method::GetExtendedAgentCard => "agent/extendedCard",
        }
    }

    /// Whether the method answers with a stream of events rather than one response.
    pub fn streams(&self) -> (r: bool)
        ensures
            r == self.spec_streams(),
    {
        match self {
            Method::SendStreamingMessage | Method::SubscribeToTask => true,
            _ => false,
        }
    }
}

/// The method that a wire name names, if any.
pub open spec fn spec_route(name: Seq<char>) -> Option<Method> {
    if name == Method::SendMessage.spec_name() {
        Some(Method::SendMessage)
    } else if name == Method::SendStreamingMessage.spec_name() {
        Some(Method::SendStreamingMessage)
    } else if name == Method::GetTask.spec_name() {
        Some(Method::GetTask)
    } else if name == Method::ListTasks.spec_name() {
        Some(Method::ListTasks)
    } else if name == Method::CancelTask.spec_name() {
        Some(Method::CancelTask)
    } else if name == Method::SubscribeToTask.spec_name() {
        Some(Method::SubscribeToTask)
    } else if name == Method::CreatePushNotificationConfig.spec_name() {
        Some(Method::CreatePushNotificationConfig)
    } else if name == Method::GetPushNotificationConfig.spec_name() {
        Some(Method::GetPushNotificationConfig)
    } else if name == Method::ListPushNotificationConfigs.spec_name() {
        Some(Method::ListPushNotificationConfigs)
    } else if name == Method::DeletePushNotificationConfig.spec_name() {
        Some(Method::DeletePushNotificationConfig)
    } else if name == Method::GetExtendedAgentCard.spec_name() {
        Some(Method::GetExtendedAgentCard)
    } else {
        None
    }
}

/// The method that `name` names, or `MethodNotFound` carrying the name.
pub fn route_method(name: &str) -> (r: Result<Method, A2AError>)
    ensures
        match spec_route(name@) {
            Some(m) => r == Ok::<Method, A2AError>(m),
            None => r matches Err(A2AError::MethodNotFound(d)) && d@ == name@,
        },
{
    if str_eq(name, Method::SendMessage.name()) {
        Ok(Method::SendMessage)
    } else if str_eq(name, Method::SendStreamingMessage.name()) {
        Ok(Method::SendStreamingMessage)
    } else if str_eq(name, Method::GetTask.name()) {
        Ok(Method::GetTask)
    } else if str_eq(name, Method::ListTasks.name()) {
        Ok(Method::ListTasks)
    } else if str_eq(name, Method::CancelTask.name()) {
        Ok(Method::CancelTask)
    } else if str_eq(name, Method::SubscribeToTask.name()) {
        Ok(Method::SubscribeToTask)
    } else if str_eq(name, Method::CreatePushNotificationConfig.name()) {
        Ok(Method::CreatePushNotificationConfig)
    } else if str_eq(name, Method::GetPushNotificationConfig.name()) {
        Ok(Method::GetPushNotificationConfig)
    } else if str_eq(name, Method::ListPushNotificationConfigs.name()) {
        Ok(Method::ListPushNotificationConfigs)
    } else if str_eq(name, Method::DeletePushNotificationConfig.name()) {
        Ok(Method::DeletePushNotificationConfig)
    } else if str_eq(name, Method::GetExtendedAgentCard.name()) {
        Ok(Method::GetExtendedAgentCard)
    } else {
        Err(A2AError::MethodNotFound(String::from_str(name)))
    }
}

/// Routing the wire name of a method gives that method back: the names are distinct.
pub proof fn lemma_route_name(m: Method)
    ensures
        spec_route(m.spec_name()) == Some(m),
{
    reveal_strlit("message/send");
    reveal_strlit("message/stream");
    reveal_strlit("tasks/get");
    reveal_strlit("tasks/list");
    reveal_strlit("tasks/cancel");
    reveal_strlit("tasks/subscribe");
    reveal_strlit("tasks/pushNotificationConfig/set");
    reveal_strlit("tasks/pushNotificationConfig/get");
    reveal_strlit("tasks/pushNotificationConfig/list");
    reveal_strlit("tasks/pushNotificationConfig/delete");
    reveal_strlit("agent/extendedCard");
    // Names of different lengths differ; names of equal length differ in a character.
    assert("message/send"@.len() == 12);
    assert("message/stream"@.len() == 14);
    assert("tasks/get"@.len() == 9);
    assert("tasks/list"@.len() == 10);
    assert("tasks/cancel"@.len() == 12);
    assert("tasks/subscribe"@.len() == 15);
    assert("tasks/pushNotificationConfig/set"@.len() == 32);
    assert("tasks/pushNotificationConfig/get"@.len() == 32);
    assert("tasks/pushNotificationConfig/list"@.len() == 33);
    assert("tasks/pushNotificationConfig/delete"@.len() == 35);
    assert("agent/extendedCard"@.len() == 18);
    assert("message/send"@[0] != "tasks/cancel"@[0]);
    assert("tasks/pushNotificationConfig/set"@[29] != "tasks/pushNotificationConfig/get"@[29]);
}


/// What the server does with a request once it has read it.
#[derive(Debug)]
pub enum Dispatch {
    /// Answer at once with this response.
    Reply(JsonRpcResponse),
    /// Parse `params` as the request of the operation `method`, then decide with
    /// [`accept_params`].
    Parse { id: serde_json::Value, method: Method, params: serde_json::Value },
    /// Hand `params` to the handler operation `method`, and answer the request `id`
    /// with its outcome.
    Call { id: serde_json::Value, method: Method, params: serde_json::Value },
}

/// The protocol version this library speaks, as the `A2A-Version` header names it.
pub const A2A_VERSION: &'static str = "1.0";

/// How a request is dispatched, given the protocol version the caller asked
/// for, if it named one: a version other than this library's is answered with
/// `VersionNotSupported`; then an unknown method with `MethodNotFound`; a known
/// method without params with `InvalidParams`; otherwise the params are to be
/// parsed as the method's request.
pub open spec fn dispatches(req: JsonRpcRequest, version: Option<Seq<char>>, d: Dispatch) -> bool {
    if version matches Some(v) && v != A2A_VERSION@ {
        d matches Dispatch::Reply(r) && r.is_error_reply(
            req.id,
            -32009,
            "version not supported: "@ + version.unwrap(),
        )
    } else {
        match spec_route(req.method@) {
            None => d matches Dispatch::Reply(r) && r.is_error_reply(
                req.id,
                -32601,
                "method not found: "@ + req.method@,
            ),
            Some(m) => match req.params {
                None => d matches Dispatch::Reply(r) && r.is_error_reply(
                    req.id,
                    -32602,
                    "invalid params: missing params"@,
                ),
                Some(p) => d == Dispatch::Parse { id: req.id, method: m, params: p },
            },
        }
    }
}

/// Decide what to do with a JSON-RPC request; `version` is the protocol
/// version the caller asked for, if it named one.
pub fn dispatch(req: JsonRpcRequest, version: Option<&str>) -> (d: Dispatch)
    ensures
        dispatches(
            req,
            match version {
                Some(v) => Some(v@),
                None => None,
            },
            d,
        ),
{
    let JsonRpcRequest { jsonrpc: _, id, method, params } = req;
    if let Some(v) = version {
        if !str_eq(v, A2A_VERSION) {
            let e = A2AError::VersionNotSupported(String::from_str(v));
            return Dispatch::Reply(error_response(id, e));
        }
    }
    match route_method(method.as_str()) {
        Err(e) => Dispatch::Reply(error_response(id, e)),
        Ok(m) => match params {
            None => {
                proof {
                    reveal_strlit("invalid params: ");
                    reveal_strlit("missing params");
                    reveal_strlit("invalid params: missing params");
                    assert("invalid params: "@ + "missing params"@ =~= "invalid params: missing params"@);
                }
                let e = A2AError::InvalidParams(String::from_str("missing params"));
                Dispatch::Reply(error_response(id, e))
            },
            Some(p) => Dispatch::Parse { id, method: m, params: p },
        },
    }
}

/// Decide, once the params of the request `id` have been parsed as the request
/// of `method`: a parse that failed with the text `t` is answered with
/// `InvalidParams(t)` and no handler is called; only a parse that succeeded
/// hands the params to the handler operation.
pub fn accept_params(
    id: serde_json::Value,
    method: Method,
    params: serde_json::Value,
    parsed: Result<(), String>,
) -> (d: Dispatch)
    ensures
        match parsed {
            Ok(()) => d == Dispatch::Call { id, method, params },
            Err(t) => d matches Dispatch::Reply(r) && r.is_error_reply(
                id,
                -32602,
                "invalid params: "@ + t@,
            ),
        },
{
    match parsed {
        Ok(()) => Dispatch::Call { id, method, params },
        Err(t) => Dispatch::Reply(error_response(id, A2AError::InvalidParams(t))),
    }
}

/// The response to the request `id` once its handler operation has answered:
/// its result, or its error's code and text.
pub fn call_reply(id: serde_json::Value, outcome: Result<serde_json::Value, A2AError>) -> (r:
    JsonRpcResponse)
    ensures
        match outcome {
            Ok(v) => r.is_success_reply(id, v),
            Err(e) => r.is_failure_reply(id, e),
        },
{
    match outcome {
        Ok(v) => JsonRpcResponse::success(id, v),
        Err(e) => error_response(id, e),
    }
}

/// The event sent for one item of a streamed reply to the request `id`:
/// an item is the handler's value (`None` where it could not be turned into
/// JSON) or its error. An item without a JSON value is skipped.
pub fn stream_event(id: &serde_json::Value, item: Result<Option<serde_json::Value>, A2AError>) -> (r:
    Option<JsonRpcResponse>)
    ensures
        match item {
            Ok(Some(v)) => r matches Some(resp) && resp.is_success_reply(*id, v),
            Ok(None) => r is None,
            Err(e) => r matches Some(resp) && resp.is_failure_reply(*id, e),
        },
{
    match item {
        Ok(Some(v)) => Some(JsonRpcResponse::success(id.clone(), v)),
        Ok(None) => None,
        Err(e) => Some(error_response(id.clone(), e)),
    }
}

impl Method {
    /// The detail of the error an operation answers where a handler does not
    /// provide it: the operation's name and "not supported".
    pub open spec fn spec_default_detail(self) -> Seq<char> {
        match self {
            Method::SendMessage => "send_message not supported"@,
            Method::SendStreamingMessage => "streaming not supported"@,
            Method::GetTask => "get_task not supported"@,
            Method::ListTasks => "list_tasks not supported"@,
            Method::CancelTask => "cancel_task not supported"@,
            Method::SubscribeToTask => "subscribe_to_task not supported"@,
            Method::CreatePushNotificationConfig => "create_push_notification_config not supported"@,
            Method::GetPushNotificationConfig => "get_push_notification_config not supported"@,
            Method::ListPushNotificationConfigs => "list_push_notification_configs not supported"@,
            Method::DeletePushNotificationConfig => "delete_push_notification_config not supported"@,
            Method::GetExtendedAgentCard => "get_extended_agent_card not supported"@,
        }
    }

    /// What the operation answers where a handler does not provide it:
    /// nothing for `message/send`, which every handler provides; every other
    /// operation is unsupported.
    pub open spec fn spec_default_outcome(self, r: Option<A2AError>) -> bool {
        if self is SendMessage {
            r is None
        } else {
            r matches Some(A2AError::UnsupportedOperation(d)) && d@ == self.spec_default_detail()
        }
    }

    /// The detail of the error an operation answers where a handler does not provide it.
    fn default_detail(&self) -> (r: &'static str)
        ensures
            r@ == self.spec_default_detail(),
    {
        match self {
            Method::SendMessage => "send_message not supported",
            Method::SendStreamingMessage => "streaming not supported",
            Method::GetTask => "get_task not supported",
            Method::ListTasks => "list_tasks not supported",
            Method::CancelTask => "cancel_task not supported",
            Method::SubscribeToTask => "subscribe_to_task not supported",
            Method::CreatePushNotificationConfig => "create_push_notification_config not supported",
            Method::GetPushNotificationConfig => "get_push_notification_config not supported",
            Method::ListPushNotificationConfigs => "list_push_notification_configs not supported",
            Method::DeletePushNotificationConfig => "delete_push_notification_config not supported",
            Method::GetExtendedAgentCard => "get_extended_agent_card not supported",
        }
    }

    /// The error an operation answers where the handler does not provide it.
    pub fn default_outcome(&self) -> (r: Option<A2AError>)
        ensures
            self.spec_default_outcome(r),
    {
        match self {
            Method::SendMessage => None,
            _ => Some(A2AError::UnsupportedOperation(String::from_str(self.default_detail()))),
        }
    }
}

/// An operation that a handler leaves out answers `UnsupportedOperation`, code
/// -32002; only `message/send` has no such answer.
pub proof fn lemma_default_outcome_codes(m: Method, r: Option<A2AError>)
    requires
        m.spec_default_outcome(r),
    ensures
        r is None <==> m is SendMessage,
        r matches Some(e) ==> e is UnsupportedOperation && e.spec_code() == -32002,
{
}


/// A request naming the wire name of a method, with params, in this library's
/// protocol version or naming no version, has its params parsed for that
/// method: it is never refused.
pub proof fn lemma_known_method_is_parsed(
    req: JsonRpcRequest,
    version: Option<Seq<char>>,
    m: Method,
    p: serde_json::Value,
    d: Dispatch,
)
    requires
        version is None || version == Some(A2A_VERSION@),
        req.method@ == m.spec_name(),
        req.params == Some(p),
        dispatches(req, version, d),
    ensures
        d == (Dispatch::Parse { id: req.id, method: m, params: p }),
{
    lemma_route_name(m);
}

/// Only a request whose method names no method is answered -32601
/// (`MethodNotFound`).
pub proof fn lemma_method_not_found_only_unknown(
    req: JsonRpcRequest,
    version: Option<Seq<char>>,
    d: Dispatch,
)
    requires
        dispatches(req, version, d),
        d matches Dispatch::Reply(r) && r.error matches Some(e) && e.code == -32601,
    ensures
        spec_route(req.method@) is None,
        forall|m: Method| req.method@ != m.spec_name(),
{
    assert forall|m: Method| req.method@ != m.spec_name() by {
        if req.method@ == m.spec_name() {
            lemma_route_name(m);
        }
    }
}

} // verus!
