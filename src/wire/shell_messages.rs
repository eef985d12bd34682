//! Contents of the requests and replies that travel on Shell.

use crate::socket::iopub::CommOpen;
use crate::socket::iopub::CommWireMsg;
use crate::socket::iopub::Exception;
use crate::text::owned;
use serde_json::Value;
use vstd::prelude::*;

verus! {

/// The status field of a reply: `ok`, `error` or `abort` on the wire.
#[derive(Debug, Clone, Copy, PartialEq, Eq, Structural)]
pub enum Status {
    Succeeded,
    Failed,
    Aborted,
}

impl Status {
    /// The status as the wire writes it.
    pub fn as_wire(&self) -> (r: String)
        ensures
            r@ == match *self {
                Status::Succeeded => "ok"@,
                Status::Failed => "error"@,
                Status::Aborted => "abort"@,
            },
    {
        match self {
            Status::Succeeded => owned("ok"),
            Status::Failed => owned("error"),
            Status::Aborted => owned("abort"),
        }
    }
}

/// A request for information about the kernel.
#[derive(Debug, Clone)]
pub struct KernelInfoRequest {}

/// Code to evaluate.
#[derive(Debug)]
pub struct ExecuteRequest {
    pub code: String,
    pub silent: bool,
    pub store_history: bool,
    pub user_expressions: Value,
    pub allow_stdin: bool,
    pub stop_on_error: bool,
}

/// A question whether code is complete enough to run.
#[derive(Debug, Clone)]
pub struct IsCompleteRequest {
    pub code: String,
}

/// A request for completions at a cursor position.
#[derive(Debug, Clone)]
pub struct CompleteRequest {
    pub code: String,
    pub cursor_pos: u32,
}

/// A request for information about the code at a cursor position.
#[derive(Debug, Clone)]
pub struct InspectRequest {
    pub code: String,
    pub cursor_pos: u32,
    pub detail_level: u32,
}

/// A request for the open comms, of one target name or of all.
#[derive(Debug, Clone)]
pub struct CommInfoRequest {
    pub target_name: Option<String>,
}

/// A typed Shell request.
#[derive(Debug)]
pub enum ShellRequest {
    KernelInfo(KernelInfoRequest),
    Execute(ExecuteRequest),
    IsComplete(IsCompleteRequest),
    Complete(CompleteRequest),
    Inspect(InspectRequest),
    CommInfo(CommInfoRequest),
    CommOpen(CommOpen),
    CommMsg(CommWireMsg),
    CommClose(String),
}

/// What the kernel says of its language.
#[derive(Debug, Clone)]
pub struct LanguageInfo {
    pub name: String,
    pub version: String,
    pub file_extension: String,
    pub mimetype: String,
    pub pygments_lexer: String,
    pub codemirror_mode: String,
    pub nbconvert_exporter: String,
}

/// A link shown in the front end's help menu.
#[derive(Debug, Clone)]
pub struct HelpLink {
    pub text: String,
    pub url: String,
}

/// Information about the kernel.
#[derive(Debug, Clone)]
pub struct KernelInfoReply {
    pub status: Status,
    pub banner: String,
    pub debugger: bool,
    pub protocol_version: String,
    pub help_links: Vec<HelpLink>,
    pub language_info: LanguageInfo,
}

/// The reply to an execute request that ran.
#[derive(Debug)]
pub struct ExecuteReply {
    /// The status of the request.
    pub status: Status,
    /// Monotonically increasing execution counter.
    pub execution_count: u32,
    /// Results for user expressions.
    pub user_expressions: Value,
}

impl ExecuteReply {
    /// The `msg_type` of an execute reply.
    pub fn message_type() -> (r: String)
        ensures
            r@ == "execute_reply"@,
    {
        owned("execute_reply")
    }
}

/// The reply to an execute request that raised an error.
#[derive(Debug, Clone)]
pub struct ExecuteReplyException {
    pub status: Status,
    pub execution_count: u32,
    pub exception: Exception,
}

/// Whether code is complete.
#[derive(Debug, Clone, Copy, PartialEq, Eq, Structural)]
pub enum IsComplete {
    Complete,
    Incomplete,
    Invalid,
    Unknown,
}

#[derive(Debug, Clone)]
pub struct IsCompleteReply {
    pub status: IsComplete,
    pub indent: String,
}

#[derive(Debug)]
pub struct CompleteReply {
    pub matches: Vec<String>,
    pub status: Status,
    pub cursor_start: u32,
    pub cursor_end: u32,
    pub metadata: Value,
}

#[derive(Debug)]
pub struct InspectReply {
    pub status: Status,
    pub found: bool,
    pub data: Value,
    pub metadata: Value,
}

/// One open comm, as `comm_info_reply` lists it.
#[derive(Debug, Clone)]
pub struct CommInfo {
    pub comm_id: String,
    pub target_name: String,
}

#[derive(Debug, Clone)]
pub struct CommInfoReply {
    pub status: Status,
    pub comms: Vec<CommInfo>,
}

/// A typed Shell reply.
#[derive(Debug)]
pub enum ShellReply {
    KernelInfo(KernelInfoReply),
    Execute(ExecuteReply),
    ExecuteException(ExecuteReplyException),
    IsComplete(IsCompleteReply),
    Complete(CompleteReply),
    Inspect(InspectReply),
    CommInfo(CommInfoReply),
    /// A request that failed with an error.
    Error(Exception),
}

/// Relies on serde_json's `Value::Null`.
#[verifier::external_body]
pub fn json_null() -> Value {
    Value::Null
}

/// The `msg_type` of each reply.
pub open spec fn reply_msg_type(r: ShellReply) -> Seq<char> {
    match r {
        ShellReply::KernelInfo(_) => "kernel_info_reply"@,
        ShellReply::Execute(_) => "execute_reply"@,
        ShellReply::ExecuteException(_) => "execute_reply"@,
        ShellReply::IsComplete(_) => "is_complete_reply"@,
        ShellReply::Complete(_) => "complete_reply"@,
        ShellReply::Inspect(_) => "inspect_reply"@,
        ShellReply::CommInfo(_) => "comm_info_reply"@,
        ShellReply::Error(_) => "error"@,
    }
}

impl ShellReply {
    /// The `msg_type` this reply is sent under.
    pub fn msg_type(&self) -> (r: String)
        ensures
            r@ == reply_msg_type(*self),
    {
        match self {
            ShellReply::KernelInfo(_) => owned("kernel_info_reply"),
            ShellReply::Execute(_) => owned("execute_reply"),
            ShellReply::ExecuteException(_) => owned("execute_reply"),
            ShellReply::IsComplete(_) => owned("is_complete_reply"),
            ShellReply::Complete(_) => owned("complete_reply"),
            ShellReply::Inspect(_) => owned("inspect_reply"),
            ShellReply::CommInfo(_) => owned("comm_info_reply"),
            ShellReply::Error(_) => owned("error"),
        }
    }
}

} // verus!
