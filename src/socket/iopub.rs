//! Messages published on IOPub, and the parent header each one is sent with.

use crate::text::owned;
use crate::wire::header::HeaderView;
use crate::wire::header::JupyterHeader;
use serde_json::Value;
use vstd::prelude::*;

verus! {

/// The kernel's execution state, as `status` messages report it.
#[derive(Debug, Clone, Copy, PartialEq, Eq, Structural)]
pub enum ExecutionState {
    Busy,
    Idle,
    Starting,
}

/// Which captured stream a `stream` message carries.
#[derive(Debug, Clone, Copy, PartialEq, Eq, Structural)]
pub enum StreamName {
    Stdout,
    Stderr,
}

/// An error raised while evaluating code.
#[derive(Debug, Clone)]
pub struct Exception {
    pub ename: String,
    pub evalue: String,
    pub traceback: Vec<String>,
}

/// A comm opened by the back end, announced to the front end.
#[derive(Debug)]
pub struct CommOpen {
    pub comm_id: String,
    pub target_name: String,
    pub data: Value,
}

/// The body of a `comm_msg`.
#[derive(Debug)]
pub struct CommWireMsg {
    pub comm_id: String,
    pub data: Value,
}

/// A message for the IOPub broadcaster.
#[derive(Debug)]
pub enum IOPubMessage {
    /// Execution state, tagged with the request it concerns.
    Status(JupyterHeader, ExecutionState),
    /// The code of an execute request, with its execution count.
    ExecuteInput(JupyterHeader, String, u32),
    /// The result of an execute request, with its execution count.
    ExecuteResult(JupyterHeader, Value, u32),
    /// An error raised by an execute request.
    ExecuteError(JupyterHeader, Exception),
    /// Captured output; tagged with the current message context.
    Stream(StreamName, String),
    /// Rich output not tied to a request; tagged with the message context.
    DisplayData(Value),
    /// A comm opened by the back end.
    CommOpen(CommOpen),
    /// Data that a comm sends unasked.
    CommMsgEvent(CommWireMsg),
    /// A comm's reply to a front-end request, tagged with that request.
    CommMsgReply(JupyterHeader, CommWireMsg),
    /// A request from a comm to the front end.
    CommMsgRequest(CommWireMsg),
    /// A comm was closed by the back end.
    CommClose(String),
}

pub enum IOPubView {
    Status(HeaderView, ExecutionState),
    ExecuteInput(HeaderView, Seq<char>, u32),
    ExecuteResult(HeaderView, Value, u32),
    ExecuteError(HeaderView, Seq<char>, Seq<char>),
    Stream(StreamName, Seq<char>),
    DisplayData(Value),
    CommOpen(Seq<char>, Seq<char>, Value),
    CommMsgEvent(Seq<char>, Value),
    CommMsgReply(HeaderView, Seq<char>, Value),
    CommMsgRequest(Seq<char>, Value),
    CommClose(Seq<char>),
}

impl View for IOPubMessage {
    type V = IOPubView;

    open spec fn view(&self) -> IOPubView {
        match self {
            IOPubMessage::Status(h, s) => IOPubView::Status(h@, *s),
            IOPubMessage::ExecuteInput(h, code, n) => IOPubView::ExecuteInput(h@, code@, *n),
            IOPubMessage::ExecuteResult(h, v, n) => IOPubView::ExecuteResult(h@, *v, *n),
            IOPubMessage::ExecuteError(h, e) => IOPubView::ExecuteError(h@, e.ename@, e.evalue@),
            IOPubMessage::Stream(n, text) => IOPubView::Stream(*n, text@),
            IOPubMessage::DisplayData(v) => IOPubView::DisplayData(*v),
            IOPubMessage::CommOpen(o) => IOPubView::CommOpen(o.comm_id@, o.target_name@, o.data),
            IOPubMessage::CommMsgEvent(m) => IOPubView::CommMsgEvent(m.comm_id@, m.data),
            IOPubMessage::CommMsgReply(h, m) => IOPubView::CommMsgReply(h@, m.comm_id@, m.data),
            IOPubMessage::CommMsgRequest(m) => IOPubView::CommMsgRequest(m.comm_id@, m.data),
            IOPubMessage::CommClose(id) => IOPubView::CommClose(id@),
        }
    }
}

pub open spec fn header_option_view(h: Option<JupyterHeader>) -> Option<HeaderView> {
    match h {
        Some(h) => Some(h@),
        None => None,
    }
}

/// The parent header a message is published with: the one it embeds; an
/// unsolicited `comm_msg` event has none; any other message takes the
/// current message context.
pub open spec fn parent_of(m: IOPubView, context: Option<HeaderView>) -> Option<HeaderView> {
    match m {
        IOPubView::Status(h, _) => Some(h),
        IOPubView::ExecuteInput(h, _, _) => Some(h),
        IOPubView::ExecuteResult(h, _, _) => Some(h),
        IOPubView::ExecuteError(h, _, _) => Some(h),
        IOPubView::CommMsgReply(h, _, _) => Some(h),
        IOPubView::CommMsgEvent(_, _) => None,
        _ => context,
    }
}

/// The `msg_type` a message is published under.
pub open spec fn iopub_msg_type(m: IOPubView) -> Seq<char> {
    match m {
        IOPubView::Status(_, _) => "status"@,
        IOPubView::ExecuteInput(_, _, _) => "execute_input"@,
        IOPubView::ExecuteResult(_, _, _) => "execute_result"@,
        IOPubView::ExecuteError(_, _, _) => "error"@,
        IOPubView::Stream(_, _) => "stream"@,
        IOPubView::DisplayData(_) => "display_data"@,
        IOPubView::CommOpen(_, _, _) => "comm_open"@,
        IOPubView::CommClose(_) => "comm_close"@,
        _ => "comm_msg"@,
    }
}

impl IOPubMessage {
    /// The parent header to publish this message with, given the current
    /// message context.
    pub fn parent_header(&self, context: &Option<JupyterHeader>) -> (r: Option<JupyterHeader>)
        ensures
            header_option_view(r) == parent_of(self@, header_option_view(*context)),
    {
        match self {
            IOPubMessage::Status(h, _) => Some(h.duplicate()),
            IOPubMessage::ExecuteInput(h, _, _) => Some(h.duplicate()),
            IOPubMessage::ExecuteResult(h, _, _) => Some(h.duplicate()),
            IOPubMessage::ExecuteError(h, _) => Some(h.duplicate()),
            IOPubMessage::CommMsgReply(h, _) => Some(h.duplicate()),
            IOPubMessage::CommMsgEvent(_) => None,
            _ => match context {
                Some(h) => Some(h.duplicate()),
                None => None,
            },
        }
    }

    /// The `msg_type` this message is published under.
    pub fn msg_type(&self) -> (r: String)
        ensures
            r@ == iopub_msg_type(self@),
    {
        match self {
            IOPubMessage::Status(_, _) => owned("status"),
            IOPubMessage::ExecuteInput(_, _, _) => owned("execute_input"),
            IOPubMessage::ExecuteResult(_, _, _) => owned("execute_result"),
            IOPubMessage::ExecuteError(_, _) => owned("error"),
            IOPubMessage::Stream(_, _) => owned("stream"),
            IOPubMessage::DisplayData(_) => owned("display_data"),
            IOPubMessage::CommOpen(_) => owned("comm_open"),
            IOPubMessage::CommClose(_) => owned("comm_close"),
            _ => owned("comm_msg"),
        }
    }
}

} // verus!
