//! Comms: named sub-protocol channels tunnelled through Jupyter messages.

use crate::text::owned;
use crate::text::same_text;
use serde_json::Value;
use vstd::prelude::*;

verus! {

/// The kinds of comm the runtime knows, by target name.
#[derive(Debug, PartialEq)]
pub enum Comm {
    /// A variables pane.
    Variables,
    /// A wrapper for a Language Server Protocol server.
    Lsp,
    /// A wrapper for a Debug Adapter Protocol server.
    Dap,
    /// A dynamic (resizable) plot.
    Plot,
    /// A data viewer.
    DataViewer,
    /// The help pane.
    Help,
    /// The front end.
    FrontEnd,
    /// Some other comm with a custom name.
    Other(String),
}

/// The target name of each known comm kind (camel case).
pub open spec fn comm_name_spec(c: Comm) -> Seq<char> {
    match c {
        Comm::Variables => "variables"@,
        Comm::Lsp => "lsp"@,
        Comm::Dap => "dap"@,
        Comm::Plot => "plot"@,
        Comm::DataViewer => "dataViewer"@,
        Comm::Help => "help"@,
        Comm::FrontEnd => "frontEnd"@,
        Comm::Other(s) => s@,
    }
}

impl Comm {
    /// The comm kind that a target name stands for; a name that no known
    /// kind has gives `Other` with that name.
    pub fn from_name(name: &str) -> (r: Comm)
        ensures
            comm_name_spec(r) == name@,
            r is Other ==> forall|c: Comm| !(c is Other) ==> comm_name_spec(c) != name@,
    {
        if same_text(name, "variables") {
            Comm::Variables
        } else if same_text(name, "lsp") {
            Comm::Lsp
        } else if same_text(name, "dap") {
            Comm::Dap
        } else if same_text(name, "plot") {
            Comm::Plot
        } else if same_text(name, "dataViewer") {
            Comm::DataViewer
        } else if same_text(name, "help") {
            Comm::Help
        } else if same_text(name, "frontEnd") {
            Comm::FrontEnd
        } else {
            Comm::Other(owned(name))
        }
    }

    /// The target name of this comm.
    pub fn name(&self) -> (r: String)
        ensures
            r@ == comm_name_spec(*self),
    {
        match self {
            Comm::Variables => owned("variables"),
            Comm::Lsp => owned("lsp"),
            Comm::Dap => owned("dap"),
            Comm::Plot => owned("plot"),
            Comm::DataViewer => owned("dataViewer"),
            Comm::Help => owned("help"),
            Comm::FrontEnd => owned("frontEnd"),
            Comm::Other(s) => s.clone(),
        }
    }
}

/// Which side opened a comm.
#[derive(Debug, Clone, Copy, PartialEq, Eq, Structural)]
pub enum CommInitiator {
    FrontEnd,
    BackEnd,
}

/// The identity of an open comm: its id, its target name and who opened
/// it. The channels that carry its messages belong to whoever runs the
/// manager's loop.
#[derive(Debug, Clone)]
pub struct CommSocket {
    pub comm_id: String,
    pub comm_name: String,
    pub initiator: CommInitiator,
}

pub struct CommSocketView {
    pub comm_id: Seq<char>,
    pub comm_name: Seq<char>,
    pub initiator: CommInitiator,
}

impl View for CommSocket {
    type V = CommSocketView;

    open spec fn view(&self) -> CommSocketView {
        CommSocketView {
            comm_id: self.comm_id@,
            comm_name: self.comm_name@,
            initiator: self.initiator,
        }
    }
}

impl CommSocket {
    pub fn new(initiator: CommInitiator, comm_id: String, comm_name: String) -> (r: CommSocket)
        ensures
            r.comm_id@ == comm_id@,
            r.comm_name@ == comm_name@,
            r.initiator == initiator,
    {
        CommSocket { comm_id, comm_name, initiator }
    }

    pub fn duplicate(&self) -> (r: CommSocket)
        ensures
            r@ == self@,
    {
        CommSocket {
            comm_id: self.comm_id.clone(),
            comm_name: self.comm_name.clone(),
            initiator: self.initiator,
        }
    }
}

/// A message on a comm, in either direction.
#[derive(Debug)]
pub enum CommMsg {
    /// Part of a remote procedure call: the id of the invocation (the
    /// Jupyter message id of the request) and the request or response.
    Rpc(String, Value),
    /// Any other data; usually an event.
    Data(Value),
    /// The comm is to be closed.
    Close,
}

pub enum CommMsgView {
    Rpc(Seq<char>, Value),
    Data(Value),
    Close,
}

impl View for CommMsg {
    type V = CommMsgView;

    open spec fn view(&self) -> CommMsgView {
        match self {
            CommMsg::Rpc(id, v) => CommMsgView::Rpc(id@, *v),
            CommMsg::Data(v) => CommMsgView::Data(*v),
            CommMsg::Close => CommMsgView::Close,
        }
    }
}

} // verus!
