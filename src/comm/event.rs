//! Events that reach the comm manager, and those it sends to the Shell.

use crate::comm::comm_channel::CommMsg;
use crate::comm::comm_channel::CommMsgView;
use crate::comm::comm_channel::CommSocket;
use crate::comm::comm_channel::CommSocketView;
use crate::wire::header::HeaderView;
use crate::wire::header::JupyterHeader;
use serde_json::Value;
use vstd::prelude::*;

verus! {

/// Changes to the set of open comms or their traffic, for the comm manager.
#[derive(Debug)]
pub enum CommManagerEvent {
    /// A new comm was opened, with the data of its opening.
    Opened(CommSocket, Value),
    /// A message from the front end for the comm with this id.
    Message(String, CommMsg),
    /// An RPC request arrived from the front end; a comm will reply to it.
    PendingRpc(JupyterHeader),
    /// The comm with this id was closed.
    Closed(String),
}

pub enum CommManagerEventView {
    Opened(CommSocketView, Value),
    Message(Seq<char>, CommMsgView),
    PendingRpc(HeaderView),
    Closed(Seq<char>),
}

impl View for CommManagerEvent {
    type V = CommManagerEventView;

    open spec fn view(&self) -> CommManagerEventView {
        match self {
            CommManagerEvent::Opened(c, v) => CommManagerEventView::Opened(c@, *v),
            CommManagerEvent::Message(id, m) => CommManagerEventView::Message(id@, m@),
            CommManagerEvent::PendingRpc(h) => CommManagerEventView::PendingRpc(h@),
            CommManagerEvent::Closed(id) => CommManagerEventView::Closed(id@),
        }
    }
}

/// Notifications for the Shell, which keeps the list of open comms that
/// `comm_info_request` reports.
#[derive(Debug)]
pub enum CommShellEvent {
    /// A comm was opened: its id and its name.
    Added(String, String),
    /// The comm with this id was removed.
    Removed(String),
}

pub enum CommShellEventView {
    Added(Seq<char>, Seq<char>),
    Removed(Seq<char>),
}

impl View for CommShellEvent {
    type V = CommShellEventView;

    open spec fn view(&self) -> CommShellEventView {
        match self {
            CommShellEvent::Added(id, name) => CommShellEventView::Added(id@, name@),
            CommShellEvent::Removed(id) => CommShellEventView::Removed(id@),
        }
    }
}

} // verus!
