//! The Control router: interrupts and shutdowns, bracketed like Shell
//! requests, on a thread of their own so that they are heard while Shell is
//! busy.

use crate::socket::iopub::Exception;
use crate::socket::iopub::ExecutionState;
use crate::socket::iopub::IOPubMessage;
use crate::wire::header::HeaderView;
use crate::wire::header::JupyterHeader;
use crate::wire::shell_messages::Status;
use vstd::prelude::*;

verus! {

#[derive(Debug, Clone)]
pub struct ShutdownRequest {
    pub restart: bool,
}

#[derive(Debug, Clone)]
pub struct ShutdownReply {
    pub status: Status,
    pub restart: bool,
}

#[derive(Debug, Clone)]
pub struct InterruptReply {
    pub status: Status,
}

/// A typed Control request.
#[derive(Debug, Clone)]
pub enum ControlRequest {
    Interrupt,
    Shutdown(ShutdownRequest),
}

/// A typed Control reply.
#[derive(Debug, Clone)]
pub enum ControlReply {
    Interrupt(InterruptReply),
    Shutdown(ShutdownReply),
    Error(Exception),
}

/// The interpreter's side of Control.
pub trait ControlHandler {
    fn handle_interrupt_request(&mut self) -> Result<InterruptReply, Exception>;

    fn handle_shutdown_request(&mut self, req: &ShutdownRequest) -> Result<ShutdownReply, Exception>;
}

/// What the Control thread is to do, in order.
#[derive(Debug)]
pub enum ControlOutput {
    /// Publish on IOPub.
    Publish(IOPubMessage),
    /// Send a reply on Control to the sender of the request with this header.
    Reply(JupyterHeader, ControlReply),
}

pub open spec fn is_control_status(o: ControlOutput, h: HeaderView, s: ExecutionState) -> bool {
    match o {
        ControlOutput::Publish(IOPubMessage::Status(p, st)) => p@ == h && st == s,
        _ => false,
    }
}

/// The handler's answer to an interrupt as a reply, or its error.
pub fn interrupt_reply(result: Result<InterruptReply, Exception>) -> (r: ControlReply)
    ensures
        match result {
            Ok(x) => r == ControlReply::Interrupt(x),
            Err(e) => r == ControlReply::Error(e),
        },
{
    match result {
        Ok(x) => ControlReply::Interrupt(x),
        Err(e) => ControlReply::Error(e),
    }
}

/// The handler's answer to a shutdown as a reply, or its error.
pub fn shutdown_reply(result: Result<ShutdownReply, Exception>) -> (r: ControlReply)
    ensures
        match result {
            Ok(x) => r == ControlReply::Shutdown(x),
            Err(e) => r == ControlReply::Error(e),
        },
{
    match result {
        Ok(x) => ControlReply::Shutdown(x),
        Err(e) => ControlReply::Error(e),
    }
}

/// The outputs for a Control request answered by `reply`: `busy`, the
/// reply to the request's sender, `idle`.
pub fn control_outputs(header: &JupyterHeader, reply: ControlReply) -> (r: Vec<ControlOutput>)
    ensures
        r@.len() == 3,
        is_control_status(r@[0], header@, ExecutionState::Busy),
        match r@[1] {
            ControlOutput::Reply(p, x) => p@ == header@ && x == reply,
            _ => false,
        },
        is_control_status(r@[2], header@, ExecutionState::Idle),
{
    let mut out: Vec<ControlOutput> = Vec::new();
    out.push(
        ControlOutput::Publish(IOPubMessage::Status(header.duplicate(), ExecutionState::Busy)),
    );
    out.push(ControlOutput::Reply(header.duplicate(), reply));
    out.push(
        ControlOutput::Publish(IOPubMessage::Status(header.duplicate(), ExecutionState::Idle)),
    );
    out
}

/// Handles one Control request: `busy` for it, the handler's reply to its
/// sender, then `idle` for it.
pub fn process_control<H: ControlHandler>(
    handler: &mut H,
    header: JupyterHeader,
    request: ControlRequest,
) -> (r: Vec<ControlOutput>)
    ensures
        r@.len() == 3,
        is_control_status(r@[0], header@, ExecutionState::Busy),
        is_control_status(r@[2], header@, ExecutionState::Idle),
        match r@[1] {
            ControlOutput::Reply(p, reply) => p@ == header@ && match request {
                ControlRequest::Interrupt => !(reply is Shutdown),
                ControlRequest::Shutdown(_) => !(reply is Interrupt),
            },
            _ => false,
        },
{
    let reply = match request {
        ControlRequest::Interrupt => interrupt_reply(handler.handle_interrupt_request()),
        ControlRequest::Shutdown(req) => shutdown_reply(handler.handle_shutdown_request(&req)),
    };
    control_outputs(&header, reply)
}

/// Whether the session ends after this request: a shutdown that does not
/// ask for a restart.
pub fn ends_session(request: &ControlRequest) -> (r: bool)
    ensures
        r == match request {
            ControlRequest::Shutdown(s) => !s.restart,
            ControlRequest::Interrupt => false,
        },
{
    match request {
        ControlRequest::Shutdown(s) => !s.restart,
        ControlRequest::Interrupt => false,
    }
}

} // verus!
