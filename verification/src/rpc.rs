//! The JSON-RPC envelope types the core works with. Parameters are held as
//! their string forms; the transport and the JSON wire encoding live
//! outside the crate and exchange these plain values with it.

use vstd::prelude::*;

verus! {

/// A JSON-RPC request envelope: the fixed protocol version, the method
/// name, the ordered parameter values, and the caller-supplied identifier.
#[derive(Debug, Clone)]
pub struct JsonRpcRequest {
    /// JSON-RPC version, always "2.0".
    pub jsonrpc: String,
    /// The name of the method to call.
    pub method: String,
    /// Parameter values for the call, in order, each in its string form.
    pub params: Vec<String>,
    /// Unique identifier for the request.
    pub id: u64,
}

impl JsonRpcRequest {
    /// Builds a request with the given method, parameters and identifier.
    pub fn new(method: String, params: Vec<String>, id: u64) -> (r: JsonRpcRequest)
        ensures
            r.jsonrpc@ == "2.0"@,
            r.method == method,
            r.params == params,
            r.id == id,
    {
        JsonRpcRequest { jsonrpc: "2.0".to_owned(), method, params, id }
    }
}

/// A JSON-RPC response envelope. A well-behaved peer populates exactly one
/// of `result` and `error`, but nothing enforces that: both may be absent
/// or both present, and readers must handle all four combinations. The
/// payloads are held as their JSON text forms.
#[derive(Debug, Clone)]
pub struct JsonRpcResponse {
    /// JSON-RPC version, always "2.0".
    pub jsonrpc: String,
    /// The result of the call, if the peer reported success.
    pub result: Option<String>,
    /// The error object, if the peer reported failure.
    pub error: Option<String>,
    /// Identifier matching the request.
    pub id: u64,
}

/// Why an exchange produced no response envelope.
#[derive(Debug, Clone, Copy, PartialEq, Eq, Structural)]
pub enum RpcError {
    /// The endpoint could not be reached, timed out, or failed at the
    /// transport level before a body arrived.
    Transport,
    /// A body arrived but could not be parsed as a response envelope.
    Protocol,
}

/// The outcome of one request/response exchange.
#[derive(Debug, Clone)]
pub enum RpcOutcome {
    /// A response envelope was received and parsed.
    Reply(JsonRpcResponse),
    /// The exchange failed; the failure kind is recorded.
    Failed(RpcError),
}

/// One completed exchange: the request that was sent, paired with its
/// outcome. Entries are appended in arrival order and never changed.
#[derive(Debug, Clone)]
pub struct HistoryEntry {
    pub request: JsonRpcRequest,
    pub outcome: RpcOutcome,
}

} // verus!
