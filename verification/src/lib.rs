//! Verified core of an A2A (agent-to-agent) protocol implementation:
//! error codes, JSON-RPC envelopes and their wire form, method routing,
//! the decisions of the server's dispatch and of the client's reply handling,
//! and the AG-UI event translation.
pub mod agui;
pub mod client;
pub mod decimal;
pub mod error;
pub mod jsonrpc;
pub mod server;
pub mod sse;
pub mod text;
pub mod wire;

pub use agui::{translate, AgUiAction, AgentEvent, CoreEvent};
pub use client::{
    agent_card_url, call_request, interpret_reply, normalize_base_url, ClientError, AGENT_CARD_PATH,
};
pub use error::A2AError;
pub use jsonrpc::{error_response, JsonRpcError, JsonRpcRequest, JsonRpcResponse};
pub use server::{
    accept_params, call_reply, dispatch, route_method, stream_event, Dispatch, Method, A2A_VERSION,
};
