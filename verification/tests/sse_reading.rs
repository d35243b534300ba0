use porygon::sse::{sse_data, SseLines};
use porygon::{interpret_reply, stream_event, JsonRpcResponse};
use serde_json::Value;

#[test]
fn lines_are_cut_at_line_feeds_across_chunks() {
    let mut reader = SseLines::new();
    let first = reader.feed(b"data: {\"a\":");
    assert!(first.is_empty());
    let second = reader.feed(b"1}\n\ndata:x\nrest");
    assert_eq!(second, vec![b"data: {\"a\":1}".to_vec(), Vec::new(), b"data:x".to_vec()]);
    let third = reader.feed(b"\n");
    assert_eq!(third, vec![b"rest".to_vec()]);
}

#[test]
fn data_payload_of_lines() {
    assert_eq!(sse_data(b"data: hello"), Some(b"hello".to_vec()));
    assert_eq!(sse_data(b"data:hello"), Some(b"hello".to_vec()));
    assert_eq!(sse_data(b"data:  two"), Some(b" two".to_vec()));
    assert_eq!(sse_data(b"data: crlf\r"), Some(b"crlf".to_vec()));
    assert_eq!(sse_data(b"data:"), Some(Vec::new()));
    assert_eq!(sse_data(b": keep-alive"), None);
    assert_eq!(sse_data(b"event: message"), None);
    assert_eq!(sse_data(b"dat"), None);
    assert_eq!(sse_data(b""), None);
}

#[test]
fn server_events_read_back_as_replies() {
    let id = Value::from(42);
    let mut wire = Vec::new();
    for v in [Value::from("working"), Value::from("completed")] {
        let event = stream_event(&id, Ok(Some(v))).unwrap();
        wire.extend_from_slice(b"data: ");
        wire.extend_from_slice(&event.to_json());
        wire.extend_from_slice(b"\n\n");
    }
    let mut reader = SseLines::new();
    let mut got = Vec::new();
    for chunk in wire.chunks(7) {
        for line in reader.feed(chunk) {
            if let Some(payload) = sse_data(&line) {
                let parsed: Value = serde_json::from_slice(&payload).unwrap();
                let resp = JsonRpcResponse {
                    jsonrpc: parsed["jsonrpc"].as_str().unwrap().to_string(),
                    id: parsed["id"].clone(),
                    result: parsed.get("result").cloned(),
                    error: None,
                };
                match interpret_reply(resp) {
                    Ok(v) => got.push(v),
                    Err(e) => panic!("{}", e.to_string()),
                }
            }
        }
    }
    assert_eq!(got, vec![Value::from("working"), Value::from("completed")]);
}
