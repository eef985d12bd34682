//! Decisions of two back-end comm services: the reticulate connection and
//! the front end's own comm.

use crate::comm::comm_channel::CommInitiator;
use crate::comm::comm_channel::CommMsg;
use crate::comm::comm_channel::CommMsgView;
use crate::comm::comm_channel::CommSocket;
use crate::comm::event::CommManagerEvent;
use crate::text::owned;
use crate::wire::shell_messages::json_null;
use serde_json::Value;
use vstd::prelude::*;

verus! {

/// The comm that a reticulate session talks through.
pub struct ReticulateService {
    pub comm: CommSocket,
}

impl ReticulateService {
    /// The service for a new comm with this id, opened by the back end
    /// under the target name `positron.reticulate`, and the event that
    /// announces it to the comm manager.
    pub fn start(comm_id: String) -> (r: (ReticulateService, CommManagerEvent))
        ensures
            r.0.comm.comm_id@ == comm_id@,
            r.0.comm.comm_name@ == "positron.reticulate"@,
            r.0.comm.initiator == CommInitiator::BackEnd,
            match r.1 {
                CommManagerEvent::Opened(c, _) => c@ == r.0.comm@,
                _ => false,
            },
    {
        let comm = CommSocket::new(CommInitiator::BackEnd, comm_id, owned("positron.reticulate"));
        let event = CommManagerEvent::Opened(comm.duplicate(), json_null());
        (ReticulateService { comm }, event)
    }

    /// Answers a message from the front end: data is sent back to it; a
    /// closing is answered with a closing and ends the service; anything
    /// else is ignored. Returns what to send and whether to go on.
    pub fn handle_message(&self, msg: CommMsg) -> (r: (Option<CommMsg>, bool))
        ensures
            match msg@ {
                CommMsgView::Close => r.1 == false && match r.0 {
                    Some(m) => m@ == CommMsgView::Close,
                    None => false,
                },
                CommMsgView::Data(v) => r.1 == true && match r.0 {
                    Some(m) => m@ == CommMsgView::Data(v),
                    None => false,
                },
                CommMsgView::Rpc(_, _) => r.1 == true && r.0 is None,
            },
    {
        match msg {
            CommMsg::Close => (Some(CommMsg::Close), false),
            CommMsg::Data(v) => (Some(CommMsg::Data(v)), true),
            CommMsg::Rpc(_, _) => (None, true),
        }
    }
}

/// What the front-end comm does with a message from the front end.
#[derive(Debug)]
pub enum FrontendAction {
    /// Nothing; the message is unexpected.
    Ignore,
    /// The front end closed the comm; the service ends.
    Stop,
    /// Decode and handle the RPC request with this id.
    HandleRpc(String, Value),
}

/// The comm through which the back end talks to the front end at large.
pub struct PositronFrontend {
    pub comm: CommSocket,
}

impl PositronFrontend {
    /// Sorts a message from the front end: data is unexpected, a closing
    /// ends the service, an RPC is to be handled under its id.
    pub fn handle_comm_message(&self, msg: CommMsg) -> (r: FrontendAction)
        ensures
            match msg@ {
                CommMsgView::Close => r is Stop,
                CommMsgView::Data(_) => r is Ignore,
                CommMsgView::Rpc(id, v) => match r {
                    FrontendAction::HandleRpc(i, w) => i@ == id && w == v,
                    _ => false,
                },
            },
    {
        match msg {
            CommMsg::Close => FrontendAction::Stop,
            CommMsg::Data(_) => FrontendAction::Ignore,
            CommMsg::Rpc(id, v) => FrontendAction::HandleRpc(id, v),
        }
    }
}

} // verus!
