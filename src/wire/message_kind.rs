//! The closed set of message types, keyed by `msg_type`.

use crate::text::owned;
use crate::text::same_text;
use vstd::prelude::*;

verus! {

/// A message type of the Jupyter protocol that the runtime handles.
#[derive(Debug, Clone, Copy, PartialEq, Eq, Structural)]
pub enum MessageKind {
    KernelInfoRequest,
    KernelInfoReply,
    ExecuteRequest,
    ExecuteReply,
    IsCompleteRequest,
    IsCompleteReply,
    CompleteRequest,
    CompleteReply,
    InspectRequest,
    InspectReply,
    CommInfoRequest,
    CommInfoReply,
    CommOpen,
    CommMsg,
    CommClose,
    InterruptRequest,
    InterruptReply,
    ShutdownRequest,
    ShutdownReply,
    Status,
    Stream,
    ExecuteInput,
    ExecuteResult,
    DisplayData,
    Error,
    InputRequest,
    InputReply,
    CommRequest,
    CommReply,
}

/// The `msg_type` of each kind.
pub open spec fn kind_name(k: MessageKind) -> Seq<char> {
    match k {
        MessageKind::KernelInfoRequest => "kernel_info_request"@,
        MessageKind::KernelInfoReply => "kernel_info_reply"@,
        MessageKind::ExecuteRequest => "execute_request"@,
        MessageKind::ExecuteReply => "execute_reply"@,
        MessageKind::IsCompleteRequest => "is_complete_request"@,
        MessageKind::IsCompleteReply => "is_complete_reply"@,
        MessageKind::CompleteRequest => "complete_request"@,
        MessageKind::CompleteReply => "complete_reply"@,
        MessageKind::InspectRequest => "inspect_request"@,
        MessageKind::InspectReply => "inspect_reply"@,
        MessageKind::CommInfoRequest => "comm_info_request"@,
        MessageKind::CommInfoReply => "comm_info_reply"@,
        MessageKind::CommOpen => "comm_open"@,
        MessageKind::CommMsg => "comm_msg"@,
        MessageKind::CommClose => "comm_close"@,
        MessageKind::InterruptRequest => "interrupt_request"@,
        MessageKind::InterruptReply => "interrupt_reply"@,
        MessageKind::ShutdownRequest => "shutdown_request"@,
        MessageKind::ShutdownReply => "shutdown_reply"@,
        MessageKind::Status => "status"@,
        MessageKind::Stream => "stream"@,
        MessageKind::ExecuteInput => "execute_input"@,
        MessageKind::ExecuteResult => "execute_result"@,
        MessageKind::DisplayData => "display_data"@,
        MessageKind::Error => "error"@,
        MessageKind::InputRequest => "input_request"@,
        MessageKind::InputReply => "input_reply"@,
        MessageKind::CommRequest => "comm_request"@,
        MessageKind::CommReply => "comm_reply"@,
    }
}

/// Why a message could not be given a type.
#[derive(Debug, Clone, PartialEq, Eq)]
pub enum TypeError {
    /// No kind has this `msg_type`.
    UnknownType(String),
}

impl MessageKind {
    /// The `msg_type` of this kind.
    pub fn msg_type(&self) -> (r: String)
        ensures
            r@ == kind_name(*self),
    {
        match self {
            MessageKind::KernelInfoRequest => owned("kernel_info_request"),
            MessageKind::KernelInfoReply => owned("kernel_info_reply"),
            MessageKind::ExecuteRequest => owned("execute_request"),
            MessageKind::ExecuteReply => owned("execute_reply"),
            MessageKind::IsCompleteRequest => owned("is_complete_request"),
            MessageKind::IsCompleteReply => owned("is_complete_reply"),
            MessageKind::CompleteRequest => owned("complete_request"),
            MessageKind::CompleteReply => owned("complete_reply"),
            MessageKind::InspectRequest => owned("inspect_request"),
            MessageKind::InspectReply => owned("inspect_reply"),
            MessageKind::CommInfoRequest => owned("comm_info_request"),
            MessageKind::CommInfoReply => owned("comm_info_reply"),
            MessageKind::CommOpen => owned("comm_open"),
            MessageKind::CommMsg => owned("comm_msg"),
            MessageKind::CommClose => owned("comm_close"),
            MessageKind::InterruptRequest => owned("interrupt_request"),
            MessageKind::InterruptReply => owned("interrupt_reply"),
            MessageKind::ShutdownRequest => owned("shutdown_request"),
            MessageKind::ShutdownReply => owned("shutdown_reply"),
            MessageKind::Status => owned("status"),
            MessageKind::Stream => owned("stream"),
            MessageKind::ExecuteInput => owned("execute_input"),
            MessageKind::ExecuteResult => owned("execute_result"),
            MessageKind::DisplayData => owned("display_data"),
            MessageKind::Error => owned("error"),
            MessageKind::InputRequest => owned("input_request"),
            MessageKind::InputReply => owned("input_reply"),
            MessageKind::CommRequest => owned("comm_request"),
            MessageKind::CommReply => owned("comm_reply"),
        }
    }

    /// The kind that a header's `msg_type` selects; an unknown type is an
    /// error that names it.
    pub fn from_msg_type(name: &str) -> (r: Result<MessageKind, TypeError>)
        ensures
            match r {
                Ok(k) => kind_name(k) == name@,
                Err(TypeError::UnknownType(s)) => s@ == name@ && forall|k: MessageKind|
                    kind_name(k) != name@,
            },
    {
        if same_text(name, "kernel_info_request") {
            Ok(MessageKind::KernelInfoRequest)
        } else if same_text(name, "kernel_info_reply") {
            Ok(MessageKind::KernelInfoReply)
        } else if same_text(name, "execute_request") {
            Ok(MessageKind::ExecuteRequest)
        } else if same_text(name, "execute_reply") {
            Ok(MessageKind::ExecuteReply)
        } else if same_text(name, "is_complete_request") {
            Ok(MessageKind::IsCompleteRequest)
        } else if same_text(name, "is_complete_reply") {
            Ok(MessageKind::IsCompleteReply)
        } else if same_text(name, "complete_request") {
            Ok(MessageKind::CompleteRequest)
        } else if same_text(name, "complete_reply") {
            Ok(MessageKind::CompleteReply)
        } else if same_text(name, "inspect_request") {
            Ok(MessageKind::InspectRequest)
        } else if same_text(name, "inspect_reply") {
            Ok(MessageKind::InspectReply)
        } else if same_text(name, "comm_info_request") {
            Ok(MessageKind::CommInfoRequest)
        } else if same_text(name, "comm_info_reply") {
            Ok(MessageKind::CommInfoReply)
        } else if same_text(name, "comm_open") {
            Ok(MessageKind::CommOpen)
        } else if same_text(name, "comm_msg") {
            Ok(MessageKind::CommMsg)
        } else if same_text(name, "comm_close") {
            Ok(MessageKind::CommClose)
        } else if same_text(name, "interrupt_request") {
            Ok(MessageKind::InterruptRequest)
        } else if same_text(name, "interrupt_reply") {
            Ok(MessageKind::InterruptReply)
        } else if same_text(name, "shutdown_request") {
            Ok(MessageKind::ShutdownRequest)
        } else if same_text(name, "shutdown_reply") {
            Ok(MessageKind::ShutdownReply)
        } else if same_text(name, "status") {
            Ok(MessageKind::Status)
        } else if same_text(name, "stream") {
            Ok(MessageKind::Stream)
        } else if same_text(name, "execute_input") {
            Ok(MessageKind::ExecuteInput)
        } else if same_text(name, "execute_result") {
            Ok(MessageKind::ExecuteResult)
        } else if same_text(name, "display_data") {
            Ok(MessageKind::DisplayData)
        } else if same_text(name, "error") {
            Ok(MessageKind::Error)
        } else if same_text(name, "input_request") {
            Ok(MessageKind::InputRequest)
        } else if same_text(name, "input_reply") {
            Ok(MessageKind::InputReply)
        } else if same_text(name, "comm_request") {
            Ok(MessageKind::CommRequest)
        } else if same_text(name, "comm_reply") {
            Ok(MessageKind::CommReply)
        } else {
            Err(TypeError::UnknownType(owned(name)))
        }
    }
}

} // verus!
