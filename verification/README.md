# porygon

An implementation of the A2A (agent-to-agent) v1.0 JSON-RPC protocol and an
AG-UI adapter for `motosan-agent-loop`, with its protocol logic verified in Verus.

## Layout

- `src/` — the verified library:
  - `error.rs` — `A2AError`, its JSON-RPC codes and texts;
  - `jsonrpc.rs` — request, response and error envelopes;
  - `wire.rs` — the JSON text of the envelopes;
  - `server.rs` — method routing, request dispatch, replies, streamed events,
    and the answers of operations a handler leaves out;
  - `client.rs` — base URL, call requests, reading replies, `ClientError`;
  - `sse.rs` — cutting an event stream into lines and reading `data:` lines;
  - `agui.rs` — translation of agent-loop events into AG-UI actions;
  - `text.rs`, `decimal.rs` — string helpers and decimal text.
- `app/` — the I/O around it: the axum router and the `A2AHandler` trait, the
  reqwest client, the serde forms of the envelopes, and the bridge from
  `motosan_agent_loop::AgentEvent`.
- `tests/` — tests of the library.

Requests and results of handler operations are JSON values in the A2A
ProtoJSON form.
