use porygon::{error_response, A2AError, JsonRpcError, JsonRpcRequest, JsonRpcResponse};
use serde_json::Value;

fn json(text: &str) -> Value {
    serde_json::from_str(text).unwrap()
}

fn encoded(resp: &JsonRpcResponse) -> Value {
    let bytes = resp.to_json();
    serde_json::from_slice(&bytes).unwrap()
}

#[test]
fn jsonrpc_response_success() {
    let resp = JsonRpcResponse::success(Value::from(1), json(r#"{"status": "ok"}"#));
    let parsed = encoded(&resp);
    assert_eq!(parsed["jsonrpc"], "2.0");
    assert!(parsed.get("error").is_none());
    assert_eq!(parsed["result"]["status"], "ok");
    assert_eq!(resp.jsonrpc, "2.0");
    assert!(resp.error.is_none());
    assert_eq!(resp.result.unwrap()["status"], "ok");
}

#[test]
fn jsonrpc_response_error() {
    let resp = JsonRpcResponse::error(Value::from(1), -32601, "method not found".to_string());
    let parsed = encoded(&resp);
    assert!(parsed.get("result").is_none());
    assert_eq!(parsed["error"]["code"], -32601);
    assert_eq!(parsed["error"]["message"], "method not found");
    assert!(resp.result.is_none());
    let err = resp.error.unwrap();
    assert_eq!(err.code, -32601);
    assert_eq!(err.message, "method not found");
}

#[test]
fn success_response_exact_text() {
    let resp = JsonRpcResponse::success(Value::from(7), json(r#"{"a":[1,2]}"#));
    let bytes = resp.to_json();
    assert_eq!(
        String::from_utf8(bytes).unwrap(),
        r#"{"jsonrpc":"2.0","id":7,"result":{"a":[1,2]}}"#
    );
}

#[test]
fn error_response_exact_text() {
    let resp = JsonRpcResponse::error(Value::from("abc"), -32602, "invalid params: x".to_string());
    let bytes = resp.to_json();
    assert_eq!(
        String::from_utf8(bytes).unwrap(),
        r#"{"jsonrpc":"2.0","id":"abc","error":{"code":-32602,"message":"invalid params: x"}}"#
    );
}

#[test]
fn error_object_with_data_is_written() {
    let resp = JsonRpcResponse {
        jsonrpc: "2.0".to_string(),
        id: Value::Null,
        result: None,
        error: Some(JsonRpcError { code: 0, message: String::new(), data: Some(Value::Bool(true)) }),
    };
    let bytes = resp.to_json();
    assert_eq!(
        String::from_utf8(bytes).unwrap(),
        r#"{"jsonrpc":"2.0","id":null,"error":{"code":0,"message":"","data":true}}"#
    );
}

#[test]
fn strings_are_escaped_like_serde_json() {
    let message = "quote \" backslash \\ nl \n tab \t bell \u{7} del \u{7f} é /";
    let resp = JsonRpcResponse::error(Value::from(1), 5, message.to_string());
    let bytes = resp.to_json();
    let expected = format!(
        r#"{{"jsonrpc":"2.0","id":1,"error":{{"code":5,"message":{}}}}}"#,
        serde_json::to_string(message).unwrap()
    );
    assert_eq!(String::from_utf8(bytes.clone()).unwrap(), expected);
    assert!(bytes.iter().all(|b| *b >= 0x20));
    let parsed: Value = serde_json::from_slice(&bytes).unwrap();
    assert_eq!(parsed["error"]["message"], message);
}

#[test]
fn every_control_byte_is_escaped() {
    let text: String = (0u8..0x20).map(|b| b as char).collect();
    let resp = JsonRpcResponse::error(Value::from(1), 1, text.clone());
    let bytes = resp.to_json();
    let expected = format!(
        r#"{{"jsonrpc":"2.0","id":1,"error":{{"code":1,"message":{}}}}}"#,
        serde_json::to_string(&text).unwrap()
    );
    assert_eq!(String::from_utf8(bytes).unwrap(), expected);
}

#[test]
fn extreme_codes_are_written_in_decimal() {
    for code in [i32::MIN, -32603, -1, 0, 9, 10, 12345, i32::MAX] {
        let resp = JsonRpcResponse::error(Value::from(1), code, "m".to_string());
        let parsed = encoded(&resp);
        assert_eq!(parsed["error"]["code"], Value::from(code));
    }
}

#[test]
fn request_text_leaves_out_missing_params() {
    let req = JsonRpcRequest {
        jsonrpc: "2.0".to_string(),
        id: Value::from(3),
        method: "tasks/get".to_string(),
        params: None,
    };
    let bytes = req.to_json();
    assert_eq!(
        String::from_utf8(bytes).unwrap(),
        r#"{"jsonrpc":"2.0","id":3,"method":"tasks/get"}"#
    );
}

#[test]
fn request_text_writes_params() {
    let req = JsonRpcRequest {
        jsonrpc: "2.0".to_string(),
        id: Value::from(3),
        method: "tasks/get".to_string(),
        params: Some(json(r#"{"id":"task-1"}"#)),
    };
    let bytes = req.to_json();
    assert_eq!(
        String::from_utf8(bytes).unwrap(),
        r#"{"jsonrpc":"2.0","id":3,"method":"tasks/get","params":{"id":"task-1"}}"#
    );
}

#[test]
fn error_response_carries_code_and_text() {
    let resp = error_response(Value::from(9), A2AError::TaskNotFound("t-1".to_string()));
    assert_eq!(resp.jsonrpc, "2.0");
    assert_eq!(resp.id, Value::from(9));
    assert!(resp.result.is_none());
    let err = resp.error.unwrap();
    assert_eq!(err.code, -32001);
    assert_eq!(err.message, "task not found: t-1");
    assert!(err.data.is_none());
}
