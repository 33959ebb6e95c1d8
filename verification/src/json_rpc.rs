//! The JSON-RPC style envelope: a single-endpoint binding of an API.
//!
//! A request names a method and carries one payload; a response carries
//! either a result or an error with a reserved code: method not found,
//! invalid params, or a response serialization failure. The router applies
//! the dispatch table to an envelope; reading and writing envelope bytes is
//! a transport concern and happens outside the library.

use vstd::prelude::*;
use vstd::string::StringExecFns;

use crate::dispatch::DispatchError;
use crate::dispatch::DispatchErrorV;
use crate::dispatch::DispatchTable;
use crate::dispatch::all_handled;
use crate::dispatch::dispatch_model;
use crate::dispatch::handler_invoked;
use crate::implementor::ImplsMethod;
use crate::value::Val;
use crate::value::Value;

verus! {

/// A JSON-RPC style request: a method name, one payload, an optional id.
#[derive(Debug)]
pub struct JsonRpcRequest {
    /// The method to call.
    pub method: String,
    /// The single payload parameter.
    pub payload: Value,
    /// The caller's id, echoed in the response.
    pub id: Option<Value>,
}

/// The model of a [`JsonRpcRequest`].
pub ghost struct JsonRpcRequestV {
    pub method: Seq<char>,
    pub payload: Val,
    pub id: Option<Val>,
}

impl View for JsonRpcRequest {
    type V = JsonRpcRequestV;

    open spec fn view(&self) -> JsonRpcRequestV {
        JsonRpcRequestV {
            method: self.method@,
            payload: self.payload@,
            id: match &self.id {
                Option::Some(v) => Option::Some(v@),
                Option::None => Option::None,
            },
        }
    }
}

/// A JSON-RPC style error: a reserved code and a message.
#[derive(Debug)]
pub struct JsonRpcError {
    /// The reserved error code.
    pub code: i64,
    /// A human-readable message.
    pub message: String,
}

/// The model of a [`JsonRpcError`].
pub ghost struct JsonRpcErrorV {
    pub code: int,
    pub message: Seq<char>,
}

impl View for JsonRpcError {
    type V = JsonRpcErrorV;

    open spec fn view(&self) -> JsonRpcErrorV {
        JsonRpcErrorV { code: self.code as int, message: self.message@ }
    }
}

impl Clone for JsonRpcError {
    /// A clone is the same error.
    fn clone(&self) -> (res: JsonRpcError)
        ensures
            res == *self,
    {
        JsonRpcError { code: self.code, message: self.message.clone() }
    }
}

/// A JSON-RPC style response: a result or an error, with the request's id.
#[derive(Debug)]
pub struct JsonRpcResponse {
    /// The handler's encoded response, on success.
    pub result: Option<Value>,
    /// The dispatch error, on failure.
    pub error: Option<JsonRpcError>,
    /// The request's id, echoed back.
    pub id: Option<Value>,
    /// The protocol version tag.
    pub jsonrpc: Option<String>,
}

/// The model of a [`JsonRpcResponse`].
pub ghost struct JsonRpcResponseV {
    pub result: Option<Val>,
    pub error: Option<JsonRpcErrorV>,
    pub id: Option<Val>,
    pub jsonrpc: Option<Seq<char>>,
}

impl View for JsonRpcResponse {
    type V = JsonRpcResponseV;

    open spec fn view(&self) -> JsonRpcResponseV {
        JsonRpcResponseV {
            result: match &self.result {
                Option::Some(v) => Option::Some(v@),
                Option::None => Option::None,
            },
            error: match &self.error {
                Option::Some(e) => Option::Some(e@),
                Option::None => Option::None,
            },
            id: match &self.id {
                Option::Some(v) => Option::Some(v@),
                Option::None => Option::None,
            },
            jsonrpc: match &self.jsonrpc {
                Option::Some(s) => Option::Some(s@),
                Option::None => Option::None,
            },
        }
    }
}

/// The reserved error a dispatch failure maps to: method not found is
/// -32601, invalid params is -32602, and a response serialization failure
/// is -32603.
pub open spec fn spec_rpc_error(e: DispatchErrorV) -> JsonRpcErrorV {
    match e {
        DispatchErrorV::MethodNotFound(n) => JsonRpcErrorV {
            code: -32601,
            message: "method not found: "@ + n,
        },
        DispatchErrorV::InvalidParams => JsonRpcErrorV {
            code: -32602,
            message: "invalid params"@,
        },
        DispatchErrorV::SerializationError => JsonRpcErrorV {
            code: -32603,
            message: "response serialization error"@,
        },
    }
}

/// Maps a dispatch failure to its reserved JSON-RPC error.
pub fn rpc_error_of(e: &DispatchError) -> (r: JsonRpcError)
    ensures
        r@ == spec_rpc_error(e@),
{
    match e {
        DispatchError::MethodNotFound(n) => {
            let mut message = String::from_str("method not found: ");
            message.append(n.as_str());
            JsonRpcError { code: -32601i64, message }
        },
        DispatchError::InvalidParams => JsonRpcError {
            code: -32602i64,
            message: String::from_str("invalid params"),
        },
        DispatchError::SerializationError => JsonRpcError {
            code: -32603i64,
            message: String::from_str("response serialization error"),
        },
    }
}

/// Serves one envelope: dispatches the named method with the payload and
/// wraps the outcome, echoing the id. A dispatch failure is always
/// reported in the error field, never dropped; on a result the error field
/// is empty, and the other way round.
pub fn json_rpc_router<B: ImplsMethod>(
    table: &DispatchTable,
    b: &mut B,
    req: &JsonRpcRequest,
) -> (r: JsonRpcResponse)
    requires
        all_handled(table@.methods, *old(b)),
    ensures
        r@.id == req@.id,
        r@.jsonrpc == Option::Some("2.0"@),
        match dispatch_model(table@.methods, *old(b), req@.method, req@.payload) {
            Result::Ok(v) => r@.result == Option::Some(v) && r@.error is None,
            Result::Err(e) => r@.result is None && r@.error == Option::Some(spec_rpc_error(e)),
        },
        handler_invoked(table@.methods, req@.method, req@.payload) ==> old(b).steps_to(
            req@.method,
            req@.payload,
            *final(b),
        ),
        !handler_invoked(table@.methods, req@.method, req@.payload) ==> *final(b) == *old(b),
        all_handled(table@.methods, *final(b)),
{
    let id = match &req.id {
        Option::Some(v) => Option::Some(v.clone()),
        Option::None => Option::None,
    };
    let jsonrpc = Option::Some(String::from_str("2.0"));
    match table.dispatch(b, &req.method, req.payload.clone()) {
        Result::Ok(v) => JsonRpcResponse { result: Option::Some(v), error: Option::None, id, jsonrpc },
        Result::Err(e) => {
            let error = rpc_error_of(&e);
            JsonRpcResponse { result: Option::None, error: Option::Some(error), id, jsonrpc }
        },
    }
}

/// The client side of the envelope: builds call envelopes against a fixed
/// base URL and reads results back out of response envelopes. Carrying the
/// envelope over a transport happens outside the library.
#[derive(Debug)]
pub struct JsonRpcClient {
    /// The URL all calls go to.
    pub base_url: String,
}

impl JsonRpcClient {
    /// A client for the given endpoint URL.
    pub fn new(base_url: String) -> (r: JsonRpcClient)
        ensures
            r.base_url@ == base_url@,
    {
        JsonRpcClient { base_url }
    }

    /// The envelope one typed call serializes to: the method's name, the
    /// encoded request as the single payload parameter, no id.
    pub fn build_request(&self, method: &String, payload: Value) -> (r: JsonRpcRequest)
        ensures
            r@.method == method@,
            r@.payload == payload@,
            r@.id is None,
    {
        JsonRpcRequest { method: method.clone(), payload, id: Option::None }
    }

    /// Reads a response envelope: the result when one is present, else the
    /// reported error, if any — a transport that answered with neither is
    /// surfaced as an empty error.
    pub fn read_response(&self, resp: &JsonRpcResponse) -> (r: Result<Value, Option<JsonRpcError>>)
        ensures
            match resp@.result {
                Option::Some(v) => r is Ok && r.unwrap()@ == v,
                Option::None => r is Err && (match resp@.error {
                    Option::Some(e) => r.unwrap_err() matches Option::Some(re) && re@ == e,
                    Option::None => r.unwrap_err() is None,
                }),
            },
    {
        match &resp.result {
            Option::Some(v) => Result::Ok(v.clone()),
            Option::None => match &resp.error {
                Option::Some(e) => Result::Err(Option::Some(e.clone())),
                Option::None => Result::Err(Option::None),
            },
        }
    }
}

} // verus!
