//! The JSON text of JSON-RPC envelopes, as the server streams it and the
//! client posts it.
//!
//! Members are written in declaration order, and an absent optional member
//! (`params`, `result`, `error`, `data`) is left out. Strings and the embedded
//! JSON values are written as `serde_json` writes them; the error code in
//! decimal.
use vstd::prelude::*;
use vstd::string::StringSliceAdditionalSpecFns;

use crate::decimal::{decimal_bytes, push_decimal_bytes};
use crate::jsonrpc::{JsonRpcError, JsonRpcRequest, JsonRpcResponse};

verus! {

/// The compact JSON text that `serde_json::to_vec` writes for a value.
pub uninterp spec fn json_value_text(v: serde_json::Value) -> Seq<u8>;

/// The JSON string that `serde_json::to_vec` writes for a string.
pub uninterp spec fn json_str_text(s: Seq<char>) -> Seq<u8>;

/// Calls `serde_json::to_vec` on a JSON value. It cannot fail: a value's
/// object keys are strings, its numbers finite, and writing to a `Vec` never
/// fails. The text depends on the value alone (`serde_json` keeps object
/// members in a sorted map by default).
#[verifier::external_body]
fn value_json(v: &serde_json::Value) -> (r: Option<Vec<u8>>)
    ensures
        r is Some,
        r.unwrap()@ == json_value_text(*v),
{
    serde_json::to_vec(v).ok()
}

/// Calls `serde_json::to_vec` on a string. It cannot fail: a string is always
/// written, as a quoted and escaped JSON string.
#[verifier::external_body]
fn str_json(s: &str) -> (r: Option<Vec<u8>>)
    ensures
        r is Some,
        r.unwrap()@ == json_str_text(s@),
{
    serde_json::to_vec(s).ok()
}

/// An optional member: left out when absent, else its key and its value's text.
pub open spec fn optional_member(key: Seq<u8>, v: Option<serde_json::Value>) -> Seq<u8> {
    match v {
        None => Seq::empty(),
        Some(x) => key + json_value_text(x),
    }
}

/// The JSON text of an error object.
pub open spec fn error_text(e: JsonRpcError) -> Seq<u8> {
    "{\"code\":".spec_bytes() + decimal_bytes(e.code as int) + ",\"message\":".spec_bytes()
        + json_str_text(e.message@) + optional_member(",\"data\":".spec_bytes(), e.data)
        + "}".spec_bytes()
}

/// The `error` member of a response: left out when absent.
pub open spec fn error_member(e: Option<JsonRpcError>) -> Seq<u8> {
    match e {
        None => Seq::empty(),
        Some(x) => ",\"error\":".spec_bytes() + error_text(x),
    }
}

/// The JSON text of a response.
pub open spec fn response_text(r: JsonRpcResponse) -> Seq<u8> {
    "{\"jsonrpc\":".spec_bytes() + json_str_text(r.jsonrpc@) + ",\"id\":".spec_bytes()
        + json_value_text(r.id) + optional_member(",\"result\":".spec_bytes(), r.result)
        + error_member(r.error) + "}".spec_bytes()
}

/// The JSON text of a request.
pub open spec fn request_text(r: JsonRpcRequest) -> Seq<u8> {
    "{\"jsonrpc\":".spec_bytes() + json_str_text(r.jsonrpc@) + ",\"id\":".spec_bytes()
        + json_value_text(r.id) + ",\"method\":".spec_bytes() + json_str_text(r.method@)
        + optional_member(",\"params\":".spec_bytes(), r.params) + "}".spec_bytes()
}

/// Append the UTF-8 bytes of `s`.
fn push_str_bytes(out: &mut Vec<u8>, s: &str)
    ensures
        final(out)@ == old(out)@ + s.spec_bytes(),
{
    let b = s.as_bytes();
    let n = b.len();
    let mut i: usize = 0;
    while i < n
        invariant
            n == b@.len(),
            b@ == s.spec_bytes(),
            i <= n,
            out@ == old(out)@ + b@.subrange(0, i as int),
        decreases n - i,
    {
        out.push(b[i]);
        i = i + 1;
    }
}

/// Append all of `v`.
fn push_all(out: &mut Vec<u8>, v: &Vec<u8>)
    ensures
        final(out)@ == old(out)@ + v@,
{
    let n = v.len();
    let mut i: usize = 0;
    while i < n
        invariant
            n == v@.len(),
            i <= n,
            out@ == old(out)@ + v@.subrange(0, i as int),
        decreases n - i,
    {
        out.push(v[i]);
        i = i + 1;
    }
}

/// Append the JSON text of a value.
fn push_value(out: &mut Vec<u8>, v: &serde_json::Value)
    ensures
        final(out)@ == old(out)@ + json_value_text(*v),
{
    let t = value_json(v).unwrap();
    push_all(out, &t);
}

/// Append the JSON string of `s`.
fn push_string(out: &mut Vec<u8>, s: &str)
    ensures
        final(out)@ == old(out)@ + json_str_text(s@),
{
    let t = str_json(s).unwrap();
    push_all(out, &t);
}

/// Append an optional member.
fn push_optional_member(out: &mut Vec<u8>, key: &str, v: &Option<serde_json::Value>)
    ensures
        final(out)@ == old(out)@ + optional_member(key.spec_bytes(), *v),
{
    match v {
        None => {
            assert(out@ =~= old(out)@ + Seq::<u8>::empty());
        },
        Some(x) => {
            push_str_bytes(out, key);
            push_value(out, x);
            assert(out@ =~= old(out)@ + (key.spec_bytes() + json_value_text(*x)));
        },
    }
}

/// Append the JSON text of an error object.
fn push_error(out: &mut Vec<u8>, e: &JsonRpcError)
    ensures
        final(out)@ == old(out)@ + error_text(*e),
{
    push_str_bytes(out, "{\"code\":");
    push_decimal_bytes(out, e.code);
    push_str_bytes(out, ",\"message\":");
    push_string(out, e.message.as_str());
    push_optional_member(out, ",\"data\":", &e.data);
    push_str_bytes(out, "}");
    assert(out@ =~= old(out)@ + error_text(*e));
}

impl JsonRpcResponse {
    /// The response's JSON text.
    pub fn to_json(&self) -> (r: Vec<u8>)
        ensures
            r@ == response_text(*self),
    {
        let mut out: Vec<u8> = Vec::new();
        push_str_bytes(&mut out, "{\"jsonrpc\":");
        push_string(&mut out, self.jsonrpc.as_str());
        push_str_bytes(&mut out, ",\"id\":");
        push_value(&mut out, &self.id);
        push_optional_member(&mut out, ",\"result\":", &self.result);
        let ghost before_error = out@;
        match &self.error {
            None => {},
            Some(e) => {
                push_str_bytes(&mut out, ",\"error\":");
                push_error(&mut out, e);
            },
        }
        assert(out@ =~= before_error + error_member(self.error));
        push_str_bytes(&mut out, "}");
        assert(out@ =~= response_text(*self));
        out
    }
}

impl JsonRpcRequest {
    /// The request's JSON text.
    pub fn to_json(&self) -> (r: Vec<u8>)
        ensures
            r@ == request_text(*self),
    {
        let mut out: Vec<u8> = Vec::new();
        push_str_bytes(&mut out, "{\"jsonrpc\":");
        push_string(&mut out, self.jsonrpc.as_str());
        push_str_bytes(&mut out, ",\"id\":");
        push_value(&mut out, &self.id);
        push_str_bytes(&mut out, ",\"method\":");
        push_string(&mut out, self.method.as_str());
        push_optional_member(&mut out, ",\"params\":", &self.params);
        push_str_bytes(&mut out, "}");
        assert(out@ =~= request_text(*self));
        out
    }
}

/// The closing brace is the byte 0x7d.
proof fn lemma_closing_brace_bytes()
    ensures
        "}".spec_bytes() == seq![0x7du8],
{
    reveal_strlit("}");
    let c = "}"@;
    assert((125u32 & 0x7f) == 125u32) by (bit_vector);
    assert(c.drop_first() =~= Seq::<char>::empty());
    assert(vstd::utf8::encode_utf8(Seq::<char>::empty()) =~= Seq::<u8>::empty());
}

/// The JSON text of a response ends with its closing brace.
pub proof fn lemma_response_text_ends_with_brace(r: JsonRpcResponse)
    ensures
        response_text(r).last() == 0x7du8,
        response_text(r).len() > 0,
{
    lemma_closing_brace_bytes();
}


/// The JSON text of a response with a result holds the member `"result"`
/// followed by the JSON text of that result, whatever the result is.
pub proof fn lemma_response_text_has_result(r: JsonRpcResponse, v: serde_json::Value)
    requires
        r.result == Some(v),
    ensures
        exists|before: Seq<u8>, after: Seq<u8>|
            response_text(r) == before + ",\"result\":".spec_bytes() + json_value_text(v) + after,
{
    let before = "{\"jsonrpc\":".spec_bytes() + json_str_text(r.jsonrpc@) + ",\"id\":".spec_bytes()
        + json_value_text(r.id);
    let after = error_member(r.error) + "}".spec_bytes();
    assert(response_text(r) =~= before + ",\"result\":".spec_bytes() + json_value_text(v) + after);
}

/// The JSON text of a request with params holds the member `"params"`
/// followed by the JSON text of those params, whatever they are.
pub proof fn lemma_request_text_has_params(r: JsonRpcRequest, p: serde_json::Value)
    requires
        r.params == Some(p),
    ensures
        exists|before: Seq<u8>, after: Seq<u8>|
            request_text(r) == before + ",\"params\":".spec_bytes() + json_value_text(p) + after,
{
    let before = "{\"jsonrpc\":".spec_bytes() + json_str_text(r.jsonrpc@) + ",\"id\":".spec_bytes()
        + json_value_text(r.id) + ",\"method\":".spec_bytes() + json_str_text(r.method@);
    let after = "}".spec_bytes();
    assert(request_text(r) =~= before + ",\"params\":".spec_bytes() + json_value_text(p) + after);
}


/// The JSON text of a response holds its version and its id, whatever they
/// are, and, when it carries an error object, that object's code in decimal
/// and its message.
pub proof fn lemma_response_text_has_id_and_error(r: JsonRpcResponse)
    ensures
        exists|after: Seq<u8>|
            response_text(r) == "{\"jsonrpc\":".spec_bytes() + json_str_text(r.jsonrpc@)
                + ",\"id\":".spec_bytes() + json_value_text(r.id) + after,
        r.error matches Some(e) ==> exists|before: Seq<u8>, after: Seq<u8>|
            response_text(r) == before + ",\"error\":".spec_bytes() + "{\"code\":".spec_bytes()
                + decimal_bytes(e.code as int) + ",\"message\":".spec_bytes() + json_str_text(
                e.message@,
            ) + after,
{
    let after = optional_member(",\"result\":".spec_bytes(), r.result) + error_member(r.error)
        + "}".spec_bytes();
    assert(response_text(r) =~= "{\"jsonrpc\":".spec_bytes() + json_str_text(r.jsonrpc@)
        + ",\"id\":".spec_bytes() + json_value_text(r.id) + after);
    if let Some(e) = r.error {
        let before = "{\"jsonrpc\":".spec_bytes() + json_str_text(r.jsonrpc@) + ",\"id\":".spec_bytes()
            + json_value_text(r.id) + optional_member(",\"result\":".spec_bytes(), r.result);
        let after2 = optional_member(",\"data\":".spec_bytes(), e.data) + "}".spec_bytes()
            + "}".spec_bytes();
        assert(response_text(r) =~= before + ",\"error\":".spec_bytes() + "{\"code\":".spec_bytes()
            + decimal_bytes(e.code as int) + ",\"message\":".spec_bytes() + json_str_text(e.message@)
            + after2);
    }
}

/// The JSON text of a request holds its version, its id and its method name,
/// whatever they are.
pub proof fn lemma_request_text_has_id_and_method(r: JsonRpcRequest)
    ensures
        exists|after: Seq<u8>|
            request_text(r) == "{\"jsonrpc\":".spec_bytes() + json_str_text(r.jsonrpc@)
                + ",\"id\":".spec_bytes() + json_value_text(r.id) + ",\"method\":".spec_bytes()
                + json_str_text(r.method@) + after,
{
    let after = optional_member(",\"params\":".spec_bytes(), r.params) + "}".spec_bytes();
    assert(request_text(r) =~= "{\"jsonrpc\":".spec_bytes() + json_str_text(r.jsonrpc@)
        + ",\"id\":".spec_bytes() + json_value_text(r.id) + ",\"method\":".spec_bytes()
        + json_str_text(r.method@) + after);
}

} // verus!
