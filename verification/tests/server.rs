use porygon::{
    call_reply, dispatch, route_method, stream_event, A2AError, Dispatch, JsonRpcRequest, Method,
};
use serde_json::Value;

const ALL: [Method; 11] = [
    Method::SendMessage,
    Method::SendStreamingMessage,
    Method::GetTask,
    Method::ListTasks,
    Method::CancelTask,
    Method::SubscribeToTask,
    Method::CreatePushNotificationConfig,
    Method::GetPushNotificationConfig,
    Method::ListPushNotificationConfigs,
    Method::DeletePushNotificationConfig,
    Method::GetExtendedAgentCard,
];

fn json(text: &str) -> Value {
    serde_json::from_str(text).unwrap()
}

fn request(id: Value, method: &str, params: Option<Value>) -> JsonRpcRequest {
    JsonRpcRequest { jsonrpc: "2.0".into(), id, method: method.into(), params }
}

fn message_params() -> Value {
    json(r#"{"message": {"messageId": "msg-1", "role": "ROLE_USER", "parts": [{"text": "hello"}]}}"#)
}

#[test]
fn jsonrpc_send_message() {
    let req = request(Value::from(1), "message/send", Some(message_params()));
    let (id, params) = match dispatch(req, None) {
        Dispatch::Parse { id, method, params } => {
            assert_eq!(method, Method::SendMessage);
            (id, params)
        }
        _ => panic!("expected a call"),
    };
    assert_eq!(params, message_params());
    let task = json(r#"{"task": {"id": "task-1", "status": {"state": "TASK_STATE_COMPLETED"}}}"#);
    let rpc_resp = call_reply(id, Ok(task));
    assert!(rpc_resp.error.is_none());
    assert!(rpc_resp.result.is_some());
}

#[test]
fn jsonrpc_unknown_method() {
    let req = request(Value::from(1), "nonexistent", None);
    match dispatch(req, None) {
        Dispatch::Reply(rpc_resp) => {
            assert!(rpc_resp.error.is_some());
            let err = rpc_resp.error.unwrap();
            assert_eq!(err.code, -32601);
            assert_eq!(err.message, "method not found: nonexistent");
        }
        _ => panic!("expected a reply"),
    }
}

#[test]
fn jsonrpc_stream_returns_sse_with_jsonrpc_envelope() {
    let req = request(Value::from(42), "message/stream", Some(message_params()));
    let id = match dispatch(req, None) {
        Dispatch::Parse { id, method, .. } => {
            assert_eq!(method, Method::SendStreamingMessage);
            assert!(method.streams());
            id
        }
        _ => panic!("expected a call"),
    };
    let items = vec![
        Ok(Some(json(r#"{"statusUpdate": {"taskId": "task-1", "status": {"state": "TASK_STATE_WORKING"}}}"#))),
        Ok(Some(json(r#"{"statusUpdate": {"taskId": "task-1", "status": {"state": "TASK_STATE_COMPLETED"}}}"#))),
    ];
    let data_lines: Vec<String> = items
        .into_iter()
        .filter_map(|item| stream_event(&id, item))
        .map(|resp| String::from_utf8(resp.to_json()).unwrap())
        .collect();
    assert!(data_lines.len() >= 2);
    for line in &data_lines {
        let rpc_resp: Value = serde_json::from_str(line).unwrap();
        assert_eq!(rpc_resp["jsonrpc"], "2.0");
        assert_eq!(rpc_resp["id"], Value::from(42));
        assert!(rpc_resp.get("result").is_some());
        assert!(rpc_resp.get("error").is_none());
    }
}

#[test]
fn stream_items_skip_and_fail() {
    let id = Value::from("s");
    assert!(stream_event(&id, Ok(None)).is_none());
    let resp = stream_event(&id, Err(A2AError::TaskNotFound("t".into()))).unwrap();
    assert_eq!(resp.id, id);
    assert!(resp.result.is_none());
    let err = resp.error.unwrap();
    assert_eq!(err.code, -32001);
    assert_eq!(err.message, "task not found: t");
}

#[test]
fn every_method_name_routes_back() {
    for m in ALL {
        assert_eq!(route_method(m.name()).unwrap(), m);
    }
    let names: Vec<&str> = ALL.iter().map(|m| m.name()).collect();
    assert_eq!(
        names,
        vec![
            "message/send",
            "message/stream",
            "tasks/get",
            "tasks/list",
            "tasks/cancel",
            "tasks/subscribe",
            "tasks/pushNotificationConfig/set",
            "tasks/pushNotificationConfig/get",
            "tasks/pushNotificationConfig/list",
            "tasks/pushNotificationConfig/delete",
            "agent/extendedCard",
        ]
    );
}

#[test]
fn near_miss_names_are_not_routed() {
    for name in ["", "message/send ", "Message/send", "tasks", "tasks/get/", "agent/extendedcard"] {
        match route_method(name) {
            Err(A2AError::MethodNotFound(n)) => assert_eq!(n, name),
            other => panic!("unexpected {other:?}"),
        }
    }
}

#[test]
fn only_streaming_methods_stream() {
    for m in ALL {
        assert_eq!(m.streams(), m == Method::SendStreamingMessage || m == Method::SubscribeToTask);
    }
}

#[test]
fn known_method_without_params_is_invalid_params() {
    let req = request(Value::from(2), "tasks/get", None);
    match dispatch(req, None) {
        Dispatch::Reply(resp) => {
            assert_eq!(resp.id, Value::from(2));
            let err = resp.error.unwrap();
            assert_eq!(err.code, -32602);
            assert_eq!(err.message, "invalid params: missing params");
        }
        _ => panic!("expected a reply"),
    }
}

#[test]
fn unknown_method_wins_over_missing_params() {
    match dispatch(request(Value::from(2), "tasks/nope", None), None) {
        Dispatch::Reply(resp) => assert_eq!(resp.error.unwrap().code, -32601),
        _ => panic!("expected a reply"),
    }
}

#[test]
fn handler_error_becomes_error_reply() {
    let resp = call_reply(Value::from(1), Err(A2AError::TaskNotFound("nonexistent".into())));
    assert!(resp.result.is_none());
    let err = resp.error.unwrap();
    assert_eq!(err.code, -32001);
    assert!(err.message.contains("nonexistent"));
}

#[test]
fn default_outcomes_of_left_out_operations() {
    assert!(Method::SendMessage.default_outcome().is_none());
    let expect = [
        (Method::SendStreamingMessage, "streaming"),
        (Method::GetTask, "get_task"),
        (Method::ListTasks, "list_tasks"),
        (Method::CancelTask, "cancel_task"),
        (Method::SubscribeToTask, "subscribe_to_task"),
        (Method::CreatePushNotificationConfig, "create_push_notification_config"),
        (Method::GetPushNotificationConfig, "get_push_notification_config"),
        (Method::ListPushNotificationConfigs, "list_push_notification_configs"),
        (Method::DeletePushNotificationConfig, "delete_push_notification_config"),
        (Method::GetExtendedAgentCard, "get_extended_agent_card"),
    ];
    for (m, op) in expect {
        let e = m.default_outcome().unwrap();
        assert!(matches!(e, A2AError::UnsupportedOperation(_)));
        assert_eq!(e.code(), -32002);
        assert_eq!(e.to_string(), format!("unsupported operation: {op} not supported"));
    }
}

#[test]
fn jsonrpc_unsupported_method_returns_error() {
    let req = request(Value::from(1), "tasks/get", Some(json(r#"{"id": "task-1"}"#)));
    let (id, method) = match dispatch(req, None) {
        Dispatch::Parse { id, method, .. } => (id, method),
        _ => panic!("expected a call"),
    };
    // A handler that leaves tasks/get out answers with its default.
    let rpc_resp = call_reply(id, Err(method.default_outcome().unwrap()));
    assert!(rpc_resp.error.is_some());
    assert_eq!(rpc_resp.error.unwrap().code, -32002); // Unsupported
}

/// The parse of A2A request params: a ProtoJSON message is a JSON object.
fn parse_object(params: &Value) -> Result<(), String> {
    serde_json::from_value::<serde_json::Map<String, Value>>(params.clone())
        .map(|_| ())
        .map_err(|e| e.to_string())
}

#[test]
fn params_that_do_not_parse_are_invalid() {
    for params in [Value::from(5), Value::from("x"), json("[1]"), Value::Null, Value::Bool(true)] {
        let (id, method, params) = match dispatch(request(Value::from(3), "message/send", Some(params)), None) {
            Dispatch::Parse { id, method, params } => (id, method, params),
            _ => panic!("expected a parse"),
        };
        let text = parse_object(&params).unwrap_err();
        match porygon::accept_params(id, method, params, Err(text.clone())) {
            Dispatch::Reply(resp) => {
                assert_eq!(resp.id, Value::from(3));
                assert!(resp.result.is_none());
                let err = resp.error.unwrap();
                assert_eq!(err.code, -32602);
                assert_eq!(err.message, format!("invalid params: {text}"));
            }
            _ => panic!("expected a reply"),
        }
    }
}

#[test]
fn params_that_parse_reach_the_handler() {
    let params = json(r#"{"id": "task-1"}"#);
    assert!(parse_object(&params).is_ok());
    match porygon::accept_params(Value::from(4), Method::GetTask, params.clone(), Ok(())) {
        Dispatch::Call { id, method, params: p } => {
            assert_eq!(id, Value::from(4));
            assert_eq!(method, Method::GetTask);
            assert_eq!(p, params);
        }
        _ => panic!("expected a call"),
    }
}

#[test]
fn foreign_version_is_refused_before_routing() {
    for method in ["message/send", "nonexistent"] {
        let req = request(Value::from(8), method, Some(json("{}")));
        match dispatch(req, Some("0.3")) {
            Dispatch::Reply(resp) => {
                assert_eq!(resp.id, Value::from(8));
                let err = resp.error.unwrap();
                assert_eq!(err.code, -32009);
                assert_eq!(err.message, "version not supported: 0.3");
            }
            _ => panic!("expected a reply"),
        }
    }
}

#[test]
fn own_version_is_accepted() {
    let req = request(Value::from(8), "tasks/get", Some(json("{}")));
    assert!(matches!(dispatch(req, Some(porygon::A2A_VERSION)), Dispatch::Parse { .. }));
    assert_eq!(porygon::A2A_VERSION, "1.0");
}

#[test]
fn client_request_reaches_the_same_method() {
    for m in ALL {
        let req = porygon::call_request(Value::from(1), m, json(r#"{"id":"p"}"#));
        match dispatch(req, Some(porygon::A2A_VERSION)) {
            Dispatch::Parse { id, method, params } => {
                assert_eq!(id, Value::from(1));
                assert_eq!(method, m);
                assert_eq!(params, json(r#"{"id":"p"}"#));
            }
            _ => panic!("expected a call"),
        }
    }
}
