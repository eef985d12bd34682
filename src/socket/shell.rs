//! The Shell router: every request is bracketed by `busy` and `idle` on
//! IOPub, dispatched to a handler, and answered to its sender.

use crate::comm::comm_channel::Comm;
use crate::comm::comm_channel::CommInitiator;
use crate::comm::comm_channel::CommMsg;
use crate::comm::comm_channel::CommMsgView;
use crate::comm::comm_channel::CommSocket;
use crate::comm::event::CommManagerEvent;
use crate::comm::event::CommManagerEventView;
use crate::comm::event::CommShellEvent;
use crate::socket::iopub::CommOpen;
use crate::socket::iopub::Exception;
use crate::socket::iopub::ExecutionState;
use crate::socket::iopub::IOPubMessage;
use crate::wire::header::HeaderView;
use crate::wire::header::JupyterHeader;
use crate::wire::shell_messages::CommInfo;
use crate::wire::shell_messages::CommInfoReply;
use crate::wire::shell_messages::CommInfoRequest;
use crate::wire::shell_messages::CompleteReply;
use crate::wire::shell_messages::CompleteRequest;
use crate::wire::shell_messages::ExecuteReply;
use crate::wire::shell_messages::ExecuteReplyException;
use crate::wire::shell_messages::ExecuteRequest;
use crate::wire::shell_messages::InspectReply;
use crate::wire::shell_messages::InspectRequest;
use crate::wire::shell_messages::IsCompleteReply;
use crate::wire::shell_messages::IsCompleteRequest;
use crate::wire::shell_messages::KernelInfoReply;
use crate::wire::shell_messages::KernelInfoRequest;
use crate::wire::shell_messages::ShellReply;
use crate::wire::shell_messages::ShellRequest;
use crate::wire::shell_messages::Status;
use serde_json::Value;
use vstd::prelude::*;

verus! {

/// What evaluating code gave.
#[derive(Debug)]
pub enum ExecuteResponse {
    Reply(ExecuteReply),
    ReplyException(ExecuteReplyException),
}

/// The language back end behind Shell. Each method answers one request; an
/// execute request also returns what it publishes on IOPub while it runs,
/// in order.
pub trait ShellHandler {
    fn handle_info_request(&mut self, req: &KernelInfoRequest) -> Result<KernelInfoReply, Exception>;

    fn handle_execute_request(&mut self, parent: &JupyterHeader, req: &ExecuteRequest) -> (
        ExecuteResponse,
        Vec<IOPubMessage>,
    );

    fn handle_is_complete_request(&self, req: &IsCompleteRequest) -> Result<
        IsCompleteReply,
        Exception,
    >;

    fn handle_complete_request(&self, req: &CompleteRequest) -> Result<CompleteReply, Exception>;

    fn handle_inspect_request(&self, req: &InspectRequest) -> Result<InspectReply, Exception>;

    /// Whether the back end takes a comm that the front end opens.
    fn handle_comm_open(&mut self, comm: Comm, comm_id: &String, data: &Value) -> Result<
        bool,
        Exception,
    >;
}

/// What the Shell thread is to do, in order.
#[derive(Debug)]
pub enum ShellOutput {
    /// Publish on IOPub.
    Publish(IOPubMessage),
    /// Send a reply on Shell to the sender of the request with this header.
    Reply(JupyterHeader, ShellReply),
    /// Tell the comm manager.
    Comm(CommManagerEvent),
    /// Make this header the message context for IOPub output.
    SetContext(JupyterHeader),
}

/// `o` publishes status `s` for the request with header `h`.
pub open spec fn is_status_for(o: ShellOutput, h: HeaderView, s: ExecutionState) -> bool {
    match o {
        ShellOutput::Publish(IOPubMessage::Status(p, st)) => p@ == h && st == s,
        _ => false,
    }
}

/// `o` is no reply, or a reply to the request with header `h`.
pub open spec fn answers(o: ShellOutput, h: HeaderView) -> bool {
    match o {
        ShellOutput::Reply(p, _) => p@ == h,
        _ => true,
    }
}

pub open spec fn comm_event_of(o: ShellOutput) -> Option<CommManagerEventView> {
    match o {
        ShellOutput::Comm(e) => Some(e@),
        _ => None,
    }
}

/// The open comms as the Shell knows them: (id, target name).
pub open spec fn comm_list_view(v: Seq<CommInfo>) -> Seq<(Seq<char>, Seq<char>)> {
    Seq::new(v.len(), |i: int| (v[i].comm_id@, v[i].target_name@))
}

/// The comms that a `comm_info_request` with this target lists.
pub open spec fn listed(target: Option<Seq<char>>) -> spec_fn((Seq<char>, Seq<char>)) -> bool {
    |c: (Seq<char>, Seq<char>)|
        match target {
            Some(t) => c.1 == t,
            None => true,
        }
}

pub open spec fn target_view(req: CommInfoRequest) -> Option<Seq<char>> {
    match req.target_name {
        Some(t) => Some(t@),
        None => None,
    }
}

/// The outputs for a request answered by one reply: `busy`, the reply to
/// the request's sender, `idle`.
pub fn reply_outputs(header: &JupyterHeader, reply: ShellReply) -> (r: Vec<ShellOutput>)
    ensures
        r@.len() == 3,
        is_status_for(r@[0], header@, ExecutionState::Busy),
        match r@[1] {
            ShellOutput::Reply(p, x) => p@ == header@ && x == reply,
            _ => false,
        },
        is_status_for(r@[2], header@, ExecutionState::Idle),
{
    let mut out: Vec<ShellOutput> = Vec::new();
    out.push(
        ShellOutput::Publish(IOPubMessage::Status(header.duplicate(), ExecutionState::Busy)),
    );
    out.push(ShellOutput::Reply(header.duplicate(), reply));
    out.push(
        ShellOutput::Publish(IOPubMessage::Status(header.duplicate(), ExecutionState::Idle)),
    );
    out
}

/// The outputs for an execute request: `busy`, the request's header as the
/// message context, what the handler published while it ran (in order),
/// the execute reply or its exception to the request's sender, `idle`.
pub fn execute_outputs(
    header: &JupyterHeader,
    response: ExecuteResponse,
    published: Vec<IOPubMessage>,
) -> (r: Vec<ShellOutput>)
    ensures
        r@.len() == published@.len() + 4,
        is_status_for(r@[0], header@, ExecutionState::Busy),
        match r@[1] {
            ShellOutput::SetContext(h) => h@ == header@,
            _ => false,
        },
        forall|i: int|
            0 <= i < published@.len() ==> r@[i + 2] == ShellOutput::Publish(published@[i]),
        match r@[r@.len() - 2] {
            ShellOutput::Reply(p, ShellReply::Execute(x)) => p@ == header@ && response
                == ExecuteResponse::Reply(x),
            ShellOutput::Reply(p, ShellReply::ExecuteException(e)) => p@ == header@ && response
                == ExecuteResponse::ReplyException(e),
            _ => false,
        },
        is_status_for(r@[r@.len() - 1], header@, ExecutionState::Idle),
        forall|i: int| 0 <= i < r@.len() ==> answers(#[trigger] r@[i], header@),
{
    let ghost all = published@;
    let mut out: Vec<ShellOutput> = Vec::new();
    out.push(
        ShellOutput::Publish(IOPubMessage::Status(header.duplicate(), ExecutionState::Busy)),
    );
    out.push(ShellOutput::SetContext(header.duplicate()));
    let mut published = published;
    while published.len() > 0
        invariant
            out@.len() >= 2,
            out@.len() - 2 + published@.len() == all.len(),
            published@ == all.skip(out@.len() - 2),
            is_status_for(out@[0], header@, ExecutionState::Busy),
            match out@[1] {
                ShellOutput::SetContext(h) => h@ == header@,
                _ => false,
            },
            forall|i: int| 0 <= i < out@.len() - 2 ==> out@[i + 2] == ShellOutput::Publish(all[i]),
            forall|i: int| 0 <= i < out@.len() ==> answers(#[trigger] out@[i], header@),
        decreases published@.len(),
    {
        let ghost k = out@.len() - 2;
        let m = published.remove(0);
        assert(m == all[k]);
        out.push(ShellOutput::Publish(m));
        assert(published@ =~= all.skip(k + 1));
    }
    let reply = match response {
        ExecuteResponse::Reply(x) => ShellReply::Execute(x),
        ExecuteResponse::ReplyException(e) => ShellReply::ExecuteException(e),
    };
    out.push(ShellOutput::Reply(header.duplicate(), reply));
    out.push(
        ShellOutput::Publish(IOPubMessage::Status(header.duplicate(), ExecutionState::Idle)),
    );
    out
}

/// The outputs for a `comm_open` from the front end, given the handler's
/// answer: a comm the handler takes is opened (front-end initiated, with
/// the open's id, name and data); one it refuses, or fails on, is closed
/// again. `busy` comes first and `idle` last.
pub fn comm_open_outputs(header: &JupyterHeader, open: CommOpen, answer: Result<bool, Exception>) -> (r:
    Vec<ShellOutput>)
    ensures
        r@.len() == 3,
        is_status_for(r@[0], header@, ExecutionState::Busy),
        is_status_for(r@[2], header@, ExecutionState::Idle),
        answer == Ok::<bool, Exception>(true) ==> match r@[1] {
            ShellOutput::Comm(CommManagerEvent::Opened(s, d)) => s.comm_id@ == open.comm_id@
                && s.comm_name@ == open.target_name@ && s.initiator == CommInitiator::FrontEnd
                && d == open.data,
            _ => false,
        },
        answer != Ok::<bool, Exception>(true) ==> match r@[1] {
            ShellOutput::Publish(IOPubMessage::CommClose(id)) => id@ == open.comm_id@,
            _ => false,
        },
{
    let taken = match answer {
        Ok(b) => b,
        Err(_) => false,
    };
    let mut out: Vec<ShellOutput> = Vec::new();
    out.push(
        ShellOutput::Publish(IOPubMessage::Status(header.duplicate(), ExecutionState::Busy)),
    );
    if taken {
        let socket = CommSocket::new(CommInitiator::FrontEnd, open.comm_id, open.target_name);
        out.push(ShellOutput::Comm(CommManagerEvent::Opened(socket, open.data)));
    } else {
        out.push(ShellOutput::Publish(IOPubMessage::CommClose(open.comm_id)));
    }
    out.push(
        ShellOutput::Publish(IOPubMessage::Status(header.duplicate(), ExecutionState::Idle)),
    );
    out
}

/// A handler's answer as a reply: the kernel information, or its error.
pub fn kernel_info_reply(result: Result<KernelInfoReply, Exception>) -> (r: ShellReply)
    ensures
        match result {
            Ok(x) => r == ShellReply::KernelInfo(x),
            Err(e) => r == ShellReply::Error(e),
        },
{
    match result {
        Ok(x) => ShellReply::KernelInfo(x),
        Err(e) => ShellReply::Error(e),
    }
}

/// A handler's answer as a reply: the completeness verdict, or its error.
pub fn is_complete_reply(result: Result<IsCompleteReply, Exception>) -> (r: ShellReply)
    ensures
        match result {
            Ok(x) => r == ShellReply::IsComplete(x),
            Err(e) => r == ShellReply::Error(e),
        },
{
    match result {
        Ok(x) => ShellReply::IsComplete(x),
        Err(e) => ShellReply::Error(e),
    }
}

/// A handler's answer as a reply: the completions, or its error.
pub fn complete_reply(result: Result<CompleteReply, Exception>) -> (r: ShellReply)
    ensures
        match result {
            Ok(x) => r == ShellReply::Complete(x),
            Err(e) => r == ShellReply::Error(e),
        },
{
    match result {
        Ok(x) => ShellReply::Complete(x),
        Err(e) => ShellReply::Error(e),
    }
}

/// A handler's answer as a reply: the inspection, or its error.
pub fn inspect_reply(result: Result<InspectReply, Exception>) -> (r: ShellReply)
    ensures
        match result {
            Ok(x) => r == ShellReply::Inspect(x),
            Err(e) => r == ShellReply::Error(e),
        },
{
    match result {
        Ok(x) => ShellReply::Inspect(x),
        Err(e) => ShellReply::Error(e),
    }
}

/// Routes Shell requests; keeps the open comms for `comm_info_request`.
pub struct Shell {
    comms: Vec<CommInfo>,
}

impl Shell {
    pub fn new() -> (r: Shell)
        ensures
            r.comms().len() == 0,
    {
        Shell { comms: Vec::new() }
    }

    pub closed spec fn comms(&self) -> Seq<(Seq<char>, Seq<char>)> {
        comm_list_view(self.comms@)
    }

    fn find(&self, id: &String) -> (r: Option<usize>)
        ensures
            match r {
                Some(i) => i < self.comms().len() && self.comms()[i as int].0 == id@,
                None => forall|j: int| 0 <= j < self.comms().len() ==> self.comms()[j].0 != id@,
            },
    {
        let mut i: usize = 0;
        while i < self.comms.len()
            invariant
                i <= self.comms@.len(),
                forall|j: int| 0 <= j < i ==> self.comms()[j].0 != id@,
            decreases self.comms@.len() - i,
        {
            if self.comms[i].comm_id == *id {
                return Some(i);
            }
            i = i + 1;
        }
        None
    }

    /// Follows a change to the set of open comms, sent by the comm manager.
    pub fn handle_comm_shell_event(&mut self, event: CommShellEvent)
        ensures
            match event {
                CommShellEvent::Added(id, name) => if exists|j: int|
                    0 <= j < old(self).comms().len() && old(self).comms()[j].0 == id@ {
                    final(self).comms() == old(self).comms()
                } else {
                    final(self).comms() == old(self).comms().push((id@, name@))
                },
                CommShellEvent::Removed(id) => if exists|j: int|
                    0 <= j < old(self).comms().len() && old(self).comms()[j].0 == id@ {
                    exists|j: int|
                        0 <= j < old(self).comms().len() && old(self).comms()[j].0 == id@
                            && final(self).comms() == old(self).comms().remove(j)
                } else {
                    final(self).comms() == old(self).comms()
                },
            },
    {
        match event {
            CommShellEvent::Added(comm_id, target_name) => {
                if self.find(&comm_id).is_none() {
                    self.comms.push(CommInfo { comm_id, target_name });
                    assert(self.comms() =~= old(self).comms().push((comm_id@, target_name@)));
                }
            },
            CommShellEvent::Removed(comm_id) => {
                if let Some(i) = self.find(&comm_id) {
                    self.comms.remove(i);
                    assert(self.comms() =~= old(self).comms().remove(i as int));
                }
            },
        }
    }

    /// The reply to a `comm_info_request`: the open comms with the asked
    /// target name (all of them without one), in order of opening.
    pub fn comm_info(&self, req: &CommInfoRequest) -> (r: CommInfoReply)
        ensures
            r.status == Status::Succeeded,
            comm_list_view(r.comms@) == self.comms().filter(
                listed(target_view(*req)),
            ),
    {
        let ghost target = target_view(*req);
        let mut out: Vec<CommInfo> = Vec::new();
        let mut i: usize = 0;
        while i < self.comms.len()
            invariant
                i <= self.comms@.len(),
                target == target_view(*req),
                comm_list_view(out@) == self.comms().take(i as int).filter(listed(target)),
            decreases self.comms@.len() - i,
        {
            let keep = match &req.target_name {
                Some(t) => self.comms[i].target_name == *t,
                None => true,
            };
            let ghost before = comm_list_view(out@);
            proof {
                reveal(Seq::filter);
                assert(self.comms().take(i + 1).drop_last() =~= self.comms().take(i as int));
                assert(self.comms().take(i + 1).last() == self.comms()[i as int]);
                assert(self.comms()[i as int].1 == self.comms@[i as int].target_name@);
                match &req.target_name {
                    Some(t) => {
                        assert(target == Some(t@));
                        assert(keep == (self.comms@[i as int].target_name@ == t@));
                    },
                    None => {},
                }
                assert(keep == listed(target)(self.comms()[i as int]));
            }
            if keep {
                out.push(
                    CommInfo {
                        comm_id: self.comms[i].comm_id.clone(),
                        target_name: self.comms[i].target_name.clone(),
                    },
                );
                assert(comm_list_view(out@) =~= before.push(self.comms()[i as int]));
                assert(comm_list_view(out@) =~= self.comms().take(i + 1).filter(listed(target)));
            } else {
                assert(comm_list_view(out@) =~= self.comms().take(i + 1).filter(listed(target)));
            }
            i = i + 1;
        }
        assert(self.comms().take(i as int) =~= self.comms());
        CommInfoReply { status: Status::Succeeded, comms: out }
    }

    /// Handles one request: `busy` for it first, `idle` for it last, and in
    /// between what the handler produces and the reply, which goes to the
    /// request's sender. A `comm_msg` becomes a pending RPC named by the
    /// request's id and an RPC to the comm; a `comm_close` a close message
    /// to the comm and its removal; a `comm_open` that the handler takes
    /// opens the comm, one it refuses is closed again.
    pub fn process_message<H: ShellHandler>(
        &self,
        handler: &mut H,
        header: JupyterHeader,
        request: ShellRequest,
    ) -> (r: Vec<ShellOutput>)
        ensures
            r@.len() >= 2,
            is_status_for(r@[0], header@, ExecutionState::Busy),
            is_status_for(r@[r@.len() - 1], header@, ExecutionState::Idle),
            forall|i: int| 0 <= i < r@.len() ==> answers(#[trigger] r@[i], header@),
            match request {
                ShellRequest::CommMsg(m) => r@.len() == 4 && comm_event_of(r@[1]) == Some(
                    CommManagerEventView::PendingRpc(header@),
                ) && comm_event_of(r@[2]) == Some(
                    CommManagerEventView::Message(
                        m.comm_id@,
                        CommMsgView::Rpc(header.msg_id@, m.data),
                    ),
                ),
                ShellRequest::CommClose(id) => r@.len() == 4 && comm_event_of(r@[1]) == Some(
                    CommManagerEventView::Message(id@, CommMsgView::Close),
                ) && comm_event_of(r@[2]) == Some(CommManagerEventView::Closed(id@)),
                ShellRequest::KernelInfo(_) => r@.len() == 3 && match r@[1] {
                    ShellOutput::Reply(_, ShellReply::KernelInfo(_)) => true,
                    ShellOutput::Reply(_, ShellReply::Error(_)) => true,
                    _ => false,
                },
                ShellRequest::IsComplete(_) => r@.len() == 3 && match r@[1] {
                    ShellOutput::Reply(_, ShellReply::IsComplete(_)) => true,
                    ShellOutput::Reply(_, ShellReply::Error(_)) => true,
                    _ => false,
                },
                ShellRequest::Complete(_) => r@.len() == 3 && match r@[1] {
                    ShellOutput::Reply(_, ShellReply::Complete(_)) => true,
                    ShellOutput::Reply(_, ShellReply::Error(_)) => true,
                    _ => false,
                },
                ShellRequest::Inspect(_) => r@.len() == 3 && match r@[1] {
                    ShellOutput::Reply(_, ShellReply::Inspect(_)) => true,
                    ShellOutput::Reply(_, ShellReply::Error(_)) => true,
                    _ => false,
                },
                ShellRequest::Execute(_) => r@.len() >= 3 && match r@[r@.len() - 2] {
                    ShellOutput::Reply(_, ShellReply::Execute(_)) => true,
                    ShellOutput::Reply(_, ShellReply::ExecuteException(_)) => true,
                    _ => false,
                },
                ShellRequest::CommOpen(o) => r@.len() == 3 && match r@[1] {
                    ShellOutput::Comm(CommManagerEvent::Opened(s, d)) => s.comm_id@ == o.comm_id@
                        && s.comm_name@ == o.target_name@ && s.initiator == CommInitiator::FrontEnd
                        && d == o.data,
                    ShellOutput::Publish(IOPubMessage::CommClose(id)) => id@ == o.comm_id@,
                    _ => false,
                },
                ShellRequest::CommInfo(req) => r@.len() == 3 && match r@[1] {
                    ShellOutput::Reply(_, ShellReply::CommInfo(reply)) => comm_list_view(
                        reply.comms@,
                    ) == self.comms().filter(
                        listed(target_view(req)),
                    ),
                    _ => false,
                },
            },
    {
        match request {
            ShellRequest::KernelInfo(req) => {
                let reply = kernel_info_reply(handler.handle_info_request(&req));
                return reply_outputs(&header, reply);
            },
            ShellRequest::Execute(req) => {
                let (response, published) = handler.handle_execute_request(&header, &req);
                return execute_outputs(&header, response, published);
            },
            ShellRequest::IsComplete(req) => {
                let reply = is_complete_reply(handler.handle_is_complete_request(&req));
                return reply_outputs(&header, reply);
            },
            ShellRequest::Complete(req) => {
                let reply = complete_reply(handler.handle_complete_request(&req));
                return reply_outputs(&header, reply);
            },
            ShellRequest::Inspect(req) => {
                let reply = inspect_reply(handler.handle_inspect_request(&req));
                return reply_outputs(&header, reply);
            },
            ShellRequest::CommOpen(open) => {
                let comm = Comm::from_name(open.target_name.as_str());
                let answer = handler.handle_comm_open(comm, &open.comm_id, &open.data);
                return comm_open_outputs(&header, open, answer);
            },
            _ => {},
        }
        let mut out: Vec<ShellOutput> = Vec::new();
        out.push(
            ShellOutput::Publish(IOPubMessage::Status(header.duplicate(), ExecutionState::Busy)),
        );
        match request {
            ShellRequest::CommInfo(req) => {
                let reply = self.comm_info(&req);
                out.push(ShellOutput::Reply(header.duplicate(), ShellReply::CommInfo(reply)));
            },
            ShellRequest::CommMsg(msg) => {
                out.push(ShellOutput::Comm(CommManagerEvent::PendingRpc(header.duplicate())));
                let rpc = CommMsg::Rpc(header.msg_id.clone(), msg.data);
                out.push(ShellOutput::Comm(CommManagerEvent::Message(msg.comm_id, rpc)));
            },
            ShellRequest::CommClose(comm_id) => {
                out.push(
                    ShellOutput::Comm(CommManagerEvent::Message(comm_id.clone(), CommMsg::Close)),
                );
                out.push(ShellOutput::Comm(CommManagerEvent::Closed(comm_id)));
            },
            _ => {},
        }
        out.push(
            ShellOutput::Publish(IOPubMessage::Status(header.duplicate(), ExecutionState::Idle)),
        );
        out
    }
}

} // verus!
