//! JSON-RPC messages exchanged with the front end over its comm.

use crate::text::owned;
use serde_json::Value;
use vstd::prelude::*;

verus! {

/// The error codes of JSON-RPC 2.0.
#[derive(Debug, Clone, Copy, PartialEq, Eq, Structural)]
pub enum JsonRpcErrorCode {
    ParseError,
    InvalidRequest,
    MethodNotFound,
    InvalidParams,
    InternalError,
}

pub open spec fn error_code_value(c: JsonRpcErrorCode) -> int {
    match c {
        JsonRpcErrorCode::ParseError => -32700,
        JsonRpcErrorCode::InvalidRequest => -32600,
        JsonRpcErrorCode::MethodNotFound => -32601,
        JsonRpcErrorCode::InvalidParams => -32602,
        JsonRpcErrorCode::InternalError => -32603,
    }
}

impl JsonRpcErrorCode {
    /// The number that stands for this code on the wire.
    pub fn code(&self) -> (r: i64)
        ensures
            r == error_code_value(*self),
    {
        match self {
            JsonRpcErrorCode::ParseError => -32700,
            JsonRpcErrorCode::InvalidRequest => -32600,
            JsonRpcErrorCode::MethodNotFound => -32601,
            JsonRpcErrorCode::InvalidParams => -32602,
            JsonRpcErrorCode::InternalError => -32603,
        }
    }

    /// The code that a number stands for, if any.
    pub fn from_code(n: i64) -> (r: Option<JsonRpcErrorCode>)
        ensures
            match r {
                Some(c) => error_code_value(c) == n,
                None => forall|c: JsonRpcErrorCode| error_code_value(c) != n,
            },
    {
        if n == -32700 {
            Some(JsonRpcErrorCode::ParseError)
        } else if n == -32600 {
            Some(JsonRpcErrorCode::InvalidRequest)
        } else if n == -32601 {
            Some(JsonRpcErrorCode::MethodNotFound)
        } else if n == -32602 {
            Some(JsonRpcErrorCode::InvalidParams)
        } else if n == -32603 {
            Some(JsonRpcErrorCode::InternalError)
        } else {
            None
        }
    }
}

/// A request from the front end: a method and its parameters.
#[derive(Debug)]
pub struct FrontendRpcRequest {
    pub method: String,
    pub params: Vec<Value>,
}

/// A successful result for the request with this id.
#[derive(Debug)]
pub struct FrontendRpcResult {
    pub id: String,
    pub result: Value,
}

/// What went wrong with a request.
#[derive(Debug, Clone)]
pub struct FrontendRpcErrorData {
    pub message: String,
    pub code: JsonRpcErrorCode,
}

/// A failure for the request with this id.
#[derive(Debug, Clone)]
pub struct FrontendRpcError {
    pub id: String,
    pub error: FrontendRpcErrorData,
}

/// The answer to a JSON-RPC request: a result or an error.
#[derive(Debug)]
pub enum JsonRpcResponse {
    Result(FrontendRpcResult),
    Error(FrontendRpcError),
}

/// Messages on the front-end comm, tagged by `msg_type` on the wire.
#[derive(Debug)]
pub enum FrontendMessage {
    Event(Value),
    RpcRequest(FrontendRpcRequest),
    RpcResultResponse(FrontendRpcResult),
    RpcResultError(FrontendRpcError),
}

/// The `msg_type` tag of each front-end message.
pub open spec fn frontend_msg_type(m: FrontendMessage) -> Seq<char> {
    match m {
        FrontendMessage::Event(_) => "event"@,
        FrontendMessage::RpcRequest(_) => "rpc_request"@,
        FrontendMessage::RpcResultResponse(_) => "rpc_result_response"@,
        FrontendMessage::RpcResultError(_) => "rpc_result_error"@,
    }
}

impl FrontendMessage {
    pub fn msg_type(&self) -> (r: String)
        ensures
            r@ == frontend_msg_type(*self),
    {
        match self {
            FrontendMessage::Event(_) => owned("event"),
            FrontendMessage::RpcRequest(_) => owned("rpc_request"),
            FrontendMessage::RpcResultResponse(_) => owned("rpc_result_response"),
            FrontendMessage::RpcResultError(_) => owned("rpc_result_error"),
        }
    }
}

/// The name of the back-end function that serves the front-end method
/// `method`: the method's name after the prefix `.ps.rpc.`.
pub fn rpc_method_name(method: &String) -> (r: String)
    ensures
        r@ == ".ps.rpc."@ + method@,
{
    let mut name = owned(".ps.rpc.");
    name.append(method.as_str());
    name
}

/// The error that answers a request for a method that does not exist.
pub fn method_not_found(id: &String, method: &String) -> (r: FrontendRpcError)
    ensures
        r.id@ == id@,
        r.error.code == JsonRpcErrorCode::MethodNotFound,
        r.error.message@ == "No such method: "@ + method@,
{
    let mut message = owned("No such method: ");
    message.append(method.as_str());
    FrontendRpcError {
        id: id.clone(),
        error: FrontendRpcErrorData { message, code: JsonRpcErrorCode::MethodNotFound },
    }
}

/// The message that answers the request `id` with the outcome of the
/// method that served it: its result, or an internal error carrying the
/// failure's text.
pub fn rpc_reply(id: &String, outcome: Result<Value, String>) -> (r: FrontendMessage)
    ensures
        match outcome {
            Ok(v) => match r {
                FrontendMessage::RpcResultResponse(x) => x.id@ == id@ && x.result == v,
                _ => false,
            },
            Err(m) => match r {
                FrontendMessage::RpcResultError(x) => x.id@ == id@ && x.error.code
                    == JsonRpcErrorCode::InternalError && x.error.message@ == m@,
                _ => false,
            },
        },
{
    match outcome {
        Ok(result) => FrontendMessage::RpcResultResponse(FrontendRpcResult { id: id.clone(), result }),
        Err(message) => FrontendMessage::RpcResultError(
            FrontendRpcError {
                id: id.clone(),
                error: FrontendRpcErrorData { message, code: JsonRpcErrorCode::InternalError },
            },
        ),
    }
}

/// A request from the front end to show its open comms.
#[derive(Debug, Clone)]
pub struct CommRequest {
    pub target_name: String,
}

impl CommRequest {
    /// The `msg_type` of a comm request.
    pub fn message_type() -> (r: String)
        ensures
            r@ == "comm_request"@,
    {
        owned("comm_request")
    }
}

/// A JSON-RPC 2.0 request from the back end to the front end.
#[derive(Debug)]
pub struct RpcRequest {
    pub msg_type: String,
    pub id: String,
    pub jsonrpc: String,
    pub method: String,
    pub params: Value,
}

/// A lowercase hex digit.
pub open spec fn is_lower_hex(c: char) -> bool {
    ('0' <= c && c <= '9') || ('a' <= c && c <= 'f')
}

/// The text of a random (version 4, RFC variant) UUID in hyphenated
/// lowercase form: `xxxxxxxx-xxxx-4xxx-yxxx-xxxxxxxxxxxx`, `y` one of 8, 9,
/// a, b.
pub open spec fn is_uuid_v4_text(s: Seq<char>) -> bool {
    &&& s.len() == 36
    &&& forall|i: int|
        0 <= i < 36 ==> if i == 8 || i == 13 || i == 18 || i == 23 {
            s[i] == '-'
        } else {
            is_lower_hex(#[trigger] s[i])
        }
    &&& s[14] == '4'
    &&& (s[19] == '8' || s[19] == '9' || s[19] == 'a' || s[19] == 'b')
}

/// Relies on `uuid::Uuid::new_v4`, which sets the version nibble to 4 and
/// the variant bits to 10, and on its `Display`, which writes the
/// hyphenated lowercase form.
#[verifier::external_body]
fn new_request_id() -> (r: String)
    ensures
        is_uuid_v4_text(r@),
{
    uuid::Uuid::new_v4().to_string()
}

impl RpcRequest {
    /// A request for `method` with `params`, under a fresh random id.
    pub fn new(method: String, params: Value) -> (r: RpcRequest)
        ensures
            r.msg_type@ == "rpc_request"@,
            r.jsonrpc@ == "2.0"@,
            r.method@ == method@,
            r.params == params,
            is_uuid_v4_text(r.id@),
    {
        RpcRequest {
            msg_type: owned("rpc_request"),
            id: new_request_id(),
            jsonrpc: owned("2.0"),
            method,
            params,
        }
    }

    /// The `msg_type` of an RPC request.
    pub fn message_type() -> (r: String)
        ensures
            r@ == "rpc_request"@,
    {
        owned("rpc_request")
    }
}

} // verus!
