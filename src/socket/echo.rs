//! A handler that evaluates nothing: it reports itself, echoes the code of
//! each execute request on IOPub and counts executions.

use crate::comm::comm_channel::Comm;
use crate::socket::control::ControlHandler;
use crate::socket::control::InterruptReply;
use crate::socket::control::ShutdownReply;
use crate::socket::control::ShutdownRequest;
use crate::socket::iopub::Exception;
use crate::socket::iopub::IOPubMessage;
use crate::socket::iopub::IOPubView;
use crate::socket::shell::ExecuteResponse;
use crate::socket::shell::ShellHandler;
use crate::text::owned;
use crate::wire::header::JupyterHeader;
use crate::wire::shell_messages::json_null;
use crate::wire::shell_messages::CompleteReply;
use crate::wire::shell_messages::CompleteRequest;
use crate::wire::shell_messages::ExecuteReply;
use crate::wire::shell_messages::ExecuteReplyException;
use crate::wire::shell_messages::ExecuteRequest;
use crate::wire::shell_messages::InspectReply;
use crate::wire::shell_messages::InspectRequest;
use crate::wire::shell_messages::IsComplete;
use crate::wire::shell_messages::IsCompleteReply;
use crate::wire::shell_messages::IsCompleteRequest;
use crate::wire::shell_messages::KernelInfoReply;
use crate::wire::shell_messages::KernelInfoRequest;
use crate::wire::shell_messages::LanguageInfo;
use crate::wire::shell_messages::Status;
use serde_json::Value;
use vstd::prelude::*;

verus! {

/// The version of the messaging protocol that the kernel speaks.
pub open spec fn protocol_version() -> Seq<char> {
    "5.3"@
}

pub struct EchoHandler {
    execution_count: u32,
}

impl EchoHandler {
    pub fn new() -> (r: EchoHandler)
        ensures
            r.count() == 0,
    {
        EchoHandler { execution_count: 0 }
    }

    pub closed spec fn count(&self) -> nat {
        self.execution_count as nat
    }

    /// The number of execute requests evaluated so far.
    pub fn execution_count(&self) -> (r: u32)
        ensures
            r == self.count(),
    {
        self.execution_count
    }

    /// Information about the kernel: status ok, protocol 5.3, language "Echo".
    pub fn kernel_info(&self) -> (r: KernelInfoReply)
        ensures
            r.status == Status::Succeeded,
            r.protocol_version@ == protocol_version(),
            r.language_info.name@ == "Echo"@,
            !r.debugger,
    {
        let mut banner = owned("Amalthea ");
        banner.append("0.1.0");
        KernelInfoReply {
            status: Status::Succeeded,
            banner,
            debugger: false,
            protocol_version: owned("5.3"),
            help_links: Vec::new(),
            language_info: LanguageInfo {
                name: owned("Echo"),
                version: owned("1.0"),
                file_extension: owned(".ech"),
                mimetype: owned("text/echo"),
                pygments_lexer: String::new(),
                codemirror_mode: String::new(),
                nbconvert_exporter: String::new(),
            },
        }
    }

    /// Counts the execution and echoes its code: `execute_input` with the
    /// new count, tagged with the request, then a reply with that count.
    /// When the count can grow no further the request fails.
    pub fn execute(&mut self, parent: &JupyterHeader, req: &ExecuteRequest) -> (r: (
        ExecuteResponse,
        Vec<IOPubMessage>,
    ))
        ensures
            old(self).count() < u32::MAX ==> {
                &&& final(self).count() == old(self).count() + 1
                &&& r.1@.len() == 1
                &&& r.1@[0]@ == IOPubView::ExecuteInput(
                    parent@,
                    req.code@,
                    final(self).count() as u32,
                )
                &&& match r.0 {
                    ExecuteResponse::Reply(reply) => reply.status == Status::Succeeded
                        && reply.execution_count == final(self).count(),
                    _ => false,
                }
            },
            old(self).count() == u32::MAX ==> final(self).count() == old(self).count() && r.1@.len()
                == 0 && r.0 is ReplyException,
    {
        if self.execution_count == u32::MAX {
            let e = Exception {
                ename: owned("OverflowError"),
                evalue: owned("execution count exhausted"),
                traceback: Vec::new(),
            };
            let reply = ExecuteReplyException {
                status: Status::Failed,
                execution_count: self.execution_count,
                exception: e,
            };
            return (ExecuteResponse::ReplyException(reply), Vec::new());
        }
        self.execution_count = self.execution_count + 1;
        let mut published: Vec<IOPubMessage> = Vec::new();
        published.push(
            IOPubMessage::ExecuteInput(parent.duplicate(), req.code.clone(), self.execution_count),
        );
        let reply = ExecuteReply {
            status: Status::Succeeded,
            execution_count: self.execution_count,
            user_expressions: json_null(),
        };
        (ExecuteResponse::Reply(reply), published)
    }
}

impl ShellHandler for EchoHandler {
    fn handle_info_request(&mut self, _req: &KernelInfoRequest) -> Result<KernelInfoReply, Exception> {
        Ok(self.kernel_info())
    }

    fn handle_execute_request(&mut self, parent: &JupyterHeader, req: &ExecuteRequest) -> (
        ExecuteResponse,
        Vec<IOPubMessage>,
    ) {
        self.execute(parent, req)
    }

    fn handle_is_complete_request(&self, _req: &IsCompleteRequest) -> Result<
        IsCompleteReply,
        Exception,
    > {
        Ok(IsCompleteReply { status: IsComplete::Complete, indent: String::new() })
    }

    fn handle_complete_request(&self, _req: &CompleteRequest) -> Result<CompleteReply, Exception> {
        Ok(
            CompleteReply {
                matches: Vec::new(),
                status: Status::Succeeded,
                cursor_start: 0,
                cursor_end: 0,
                metadata: json_null(),
            },
        )
    }

    fn handle_inspect_request(&self, _req: &InspectRequest) -> Result<InspectReply, Exception> {
        Ok(
            InspectReply {
                status: Status::Succeeded,
                found: false,
                data: json_null(),
                metadata: json_null(),
            },
        )
    }

    fn handle_comm_open(&mut self, _comm: Comm, _comm_id: &String, _data: &Value) -> Result<
        bool,
        Exception,
    > {
        Ok(false)
    }
}

impl ControlHandler for EchoHandler {
    fn handle_interrupt_request(&mut self) -> Result<InterruptReply, Exception> {
        Ok(InterruptReply { status: Status::Succeeded })
    }

    fn handle_shutdown_request(&mut self, req: &ShutdownRequest) -> Result<ShutdownReply, Exception> {
        Ok(ShutdownReply { status: Status::Succeeded, restart: req.restart })
    }
}

} // verus!
